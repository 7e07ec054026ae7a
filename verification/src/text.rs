//! Character-level text rules: blank detection and ellipsis truncation.

use vstd::prelude::*;
use vstd::string::*;

verus! {

/// The marker appended to a text that was cut short.
pub const ELLIPSIS: char = '\u{2026}';

/// The characters with the Unicode `White_Space` property.
pub open spec fn is_white_space(c: char) -> bool {
    let n = c as u32;
    ||| 0x09 <= n <= 0x0D
    ||| n == 0x20
    ||| n == 0x85
    ||| n == 0xA0
    ||| n == 0x1680
    ||| 0x2000 <= n <= 0x200A
    ||| n == 0x2028
    ||| n == 0x2029
    ||| n == 0x202F
    ||| n == 0x205F
    ||| n == 0x3000
}

/// A text is blank when nothing but white space is in it: trimming it
/// would leave nothing. The empty text is blank.
pub open spec fn is_blank(text: Seq<char>) -> bool {
    forall|i: int| 0 <= i < text.len() ==> is_white_space(#[trigger] text[i])
}

/// Decides whether one character is white space.
pub fn white_space(c: char) -> (b: bool)
    ensures
        b == is_white_space(c),
{
    let n: u32 = c as u32;
    (0x09 <= n && n <= 0x0D) || n == 0x20 || n == 0x85 || n == 0xA0 || n == 0x1680 || (0x2000 <= n
        && n <= 0x200A) || n == 0x2028 || n == 0x2029 || n == 0x202F || n == 0x205F || n == 0x3000
}

/// Decides whether a text is blank.
pub fn blank(text: &str) -> (b: bool)
    ensures
        b == is_blank(text@),
{
    let mut all: bool = true;
    for c in it: text.chars()
        invariant
            it.seq() == text@,
            all == (forall|j: int| 0 <= j < it.index() ==> is_white_space(#[trigger] text@[j])),
    {
        all = all && white_space(c);
    }
    all
}

/// Whether a text of this many characters is cut when `max_chars` is the limit.
/// A limit of zero or below switches truncation off.
pub open spec fn is_cut(text: Seq<char>, max_chars: int) -> bool {
    max_chars > 0 && text.len() > max_chars
}

/// The text as it is shown under the limit `max_chars`: unchanged when it
/// fits or the limit is off, else its first `max_chars` characters followed
/// by one ellipsis.
pub open spec fn shortened(text: Seq<char>, max_chars: int) -> Seq<char> {
    if is_cut(text, max_chars) {
        text.subrange(0, max_chars).push(ELLIPSIS)
    } else {
        text
    }
}

/// Cuts `text` to at most `max_chars` characters, counting characters and
/// not bytes, and marks a cut with a trailing ellipsis.
pub fn truncate_text(text: String, max_chars: i32) -> (out: String)
    ensures
        out@ == shortened(text@, max_chars as int),
{
    if max_chars <= 0 {
        return text;
    }
    let limit: usize = max_chars as usize;
    let count: usize = text.as_str().unicode_len();
    if count <= limit {
        return text;
    }
    let head: &str = text.as_str().substring_char(0, limit);
    let out = String::from_str(head).concat("\u{2026}");
    proof {
        reveal_strlit("\u{2026}");
    }
    out
}

/// With the limit at zero, or below, a text is never cut, whatever its
/// length.
pub proof fn lemma_no_limit_keeps_text(text: Seq<char>, max_chars: int)
    requires
        max_chars <= 0,
    ensures
        !is_cut(text, max_chars),
        shortened(text, max_chars) == text,
{
}

/// Under a positive limit a text is shown in at most one character more
/// than the limit: up to the limit of its own, and the ellipsis if it was
/// cut. A text that fits is shown as it is.
pub proof fn lemma_limit_bounds_text(text: Seq<char>, max_chars: int)
    requires
        max_chars > 0,
    ensures
        shortened(text, max_chars).len() <= max_chars + 1,
        is_cut(text, max_chars) ==> shortened(text, max_chars).len() == max_chars + 1,
        is_cut(text, max_chars) ==> shortened(text, max_chars).last() == ELLIPSIS,
        is_cut(text, max_chars) ==> shortened(text, max_chars).drop_last() == text.subrange(
            0,
            max_chars,
        ),
        !is_cut(text, max_chars) ==> shortened(text, max_chars) == text,
{
}

/// Whether a text ends with the ellipsis.
pub open spec fn ends_with_ellipsis(text: Seq<char>) -> bool {
    text.len() > 0 && text.last() == ELLIPSIS
}

/// Under a positive limit, the text shown ends with the ellipsis exactly
/// when the text was cut. This holds of every text that does not itself
/// end with an ellipsis while fitting the limit: such a text is shown
/// unchanged, ellipsis and all.
pub proof fn lemma_ellipsis_marks_cut(text: Seq<char>, max_chars: int)
    requires
        max_chars > 0,
        is_cut(text, max_chars) || !ends_with_ellipsis(text),
    ensures
        ends_with_ellipsis(shortened(text, max_chars)) <==> is_cut(text, max_chars),
{
}

/// The empty text is blank, and so is a text of spaces.
pub proof fn lemma_spaces_are_blank(n: nat)
    ensures
        is_blank(Seq::empty()),
        is_blank(Seq::new(n, |i: int| ' ')),
{
}

} // verus!
