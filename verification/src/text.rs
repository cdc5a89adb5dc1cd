use vstd::prelude::*;
use vstd::string::*;

verus! {

/// Where the colon-separated segment that starts at `from` ends: at the first
/// colon at or after `from`, or at the end of the text.
pub open spec fn segment_end(text: Seq<char>, from: int) -> int
    decreases text.len() - from,
{
    if from >= text.len() {
        text.len() as int
    } else if text[from] == ':' {
        from
    } else {
        segment_end(text, from + 1)
    }
}

/// The text before the first colon: all of it where there is none.
pub open spec fn first_segment(text: Seq<char>) -> Seq<char> {
    text.subrange(0, segment_end(text, 0))
}

/// A colon follows the first segment.
pub open spec fn has_second_segment(text: Seq<char>) -> bool {
    segment_end(text, 0) < text.len()
}

/// The text between the first colon and the next one, or the end.
pub open spec fn second_segment(text: Seq<char>) -> Seq<char>
    recommends
        has_second_segment(text),
{
    text.subrange(segment_end(text, 0) + 1, segment_end(text, segment_end(text, 0) + 1))
}

/// Finds where the segment that starts at `from` ends.
pub fn find_segment_end(text: &str, from: usize) -> (end: usize)
    requires
        from <= text@.len(),
    ensures
        end == segment_end(text@, from as int),
        from <= end <= text@.len(),
{
    let len: usize = text.unicode_len();
    let mut i: usize = from;
    while i < len
        invariant
            len == text@.len(),
            from <= i <= len,
            segment_end(text@, from as int) == segment_end(text@, i as int),
        decreases len - i,
    {
        if text.get_char(i) == ':' {
            return i;
        }
        i = i + 1;
    }
    i
}

/// Splits a text at its colons and hands out the first two segments; the
/// second is absent where the text holds no colon.
pub fn leading_segments(text: &str) -> (parts: (String, Option<String>))
    ensures
        parts.0@ == first_segment(text@),
        parts.1 is Some <==> has_second_segment(text@),
        parts.1 matches Some(second) ==> second@ == second_segment(text@),
{
    let len: usize = text.unicode_len();
    let first_end: usize = find_segment_end(text, 0);
    let first = String::from_str(text.substring_char(0, first_end));
    if first_end < len {
        let second_end: usize = find_segment_end(text, first_end + 1);
        let second = String::from_str(text.substring_char(first_end + 1, second_end));
        (first, Some(second))
    } else {
        (first, None)
    }
}

} // verus!
