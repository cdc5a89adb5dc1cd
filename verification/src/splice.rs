use vstd::prelude::*;
use vstd::string::*;

verus! {

/// The marker after which generated content is inserted.
pub open spec fn start_marker() -> Seq<char> {
    "scaffold:insertion-start"@
}

/// The marker before which generated content ends.
pub open spec fn end_marker() -> Seq<char> {
    "scaffold:insertion-end"@
}

/// `pattern` stands in `text` at position `at`.
pub open spec fn occurs_at(text: Seq<char>, pattern: Seq<char>, at: int) -> bool {
    0 <= at && at + pattern.len() <= text.len() && text.subrange(at, at + pattern.len())
        =~= pattern
}

/// The first position at or after `from` at which `pattern` stands in `text`,
/// or -1 where it stands at none.
pub open spec fn occurrence(text: Seq<char>, pattern: Seq<char>, from: int) -> int
    decreases text.len() - from,
{
    if from < 0 || from + pattern.len() > text.len() {
        -1
    } else if occurs_at(text, pattern, from) {
        from
    } else {
        occurrence(text, pattern, from + 1)
    }
}

/// Where the line that holds position `from` ends: behind the first line
/// break at or after `from`, or at the end of the text.
pub open spec fn line_end(text: Seq<char>, from: int) -> int
    decreases text.len() - from,
{
    if from < 0 || from >= text.len() {
        text.len() as int
    } else if text[from] == '\n' {
        from + 1
    } else {
        line_end(text, from + 1)
    }
}

/// Where the line that holds position `at` begins: behind the last line
/// break before `at`, or at the beginning of the text.
pub open spec fn line_start(text: Seq<char>, at: int) -> int
    decreases at,
{
    if at <= 0 || at > text.len() {
        0
    } else if text[at - 1] == '\n' {
        at
    } else {
        line_start(text, at - 1)
    }
}

/// Where the line of the first start marker ends, or -1 without one.
pub open spec fn kept_head(existing: Seq<char>) -> int {
    let start = occurrence(existing, start_marker(), 0);
    if start < 0 {
        -1
    } else {
        line_end(existing, start + start_marker().len())
    }
}

/// Where the line of the first end marker on a line after the start marker
/// begins, or -1 without one.
pub open spec fn kept_tail(existing: Seq<char>) -> int {
    if kept_head(existing) < 0 {
        -1
    } else {
        let end = occurrence(existing, end_marker(), kept_head(existing));
        if end < 0 {
            -1
        } else {
            line_start(existing, end)
        }
    }
}

/// The text in which `insertion` has taken the place of the lines between
/// the line of the first start marker and the line of the first end marker
/// after it; `None` where the pair is not there.
pub open spec fn spliced(existing: Seq<char>, insertion: Seq<char>) -> Option<Seq<char>> {
    if kept_tail(existing) < 0 {
        None
    } else {
        Some(
            existing.subrange(0, kept_head(existing)) + insertion + existing.subrange(
                kept_tail(existing),
                existing.len() as int,
            ),
        )
    }
}

pub proof fn line_end_bounds(text: Seq<char>, from: int)
    requires
        0 <= from <= text.len(),
    ensures
        from <= line_end(text, from) <= text.len(),
        line_end(text, from) == text.len() || text[line_end(text, from) - 1] == '\n',
    decreases text.len() - from,
{
    if from < text.len() && text[from] != '\n' {
        line_end_bounds(text, from + 1);
    }
}

/// The line of `at` begins at or before `at`, and not before a line that
/// begins at or before `at`.
pub proof fn line_start_bounds(text: Seq<char>, at: int, earlier: int)
    requires
        0 <= earlier <= at <= text.len(),
        earlier == 0 || text[earlier - 1] == '\n',
    ensures
        earlier <= line_start(text, at) <= at,
    decreases at,
{
    if at > 0 && text[at - 1] != '\n' {
        line_start_bounds(text, at - 1, earlier);
    }
}

pub proof fn occurrence_bounds(text: Seq<char>, pattern: Seq<char>, from: int)
    requires
        0 <= from,
    ensures
        occurrence(text, pattern, from) == -1 || (from <= occurrence(text, pattern, from)
            && occurs_at(text, pattern, occurrence(text, pattern, from))),
        forall|k: int|
            from <= k && (occurrence(text, pattern, from) == -1 || k < occurrence(
                text,
                pattern,
                from,
            )) ==> !occurs_at(text, pattern, k),
    decreases text.len() - from,
{
    if from + pattern.len() <= text.len() && !occurs_at(text, pattern, from) {
        occurrence_bounds(text, pattern, from + 1);
    }
}

/// The characters of a text, one by one.
pub fn to_chars(text: &str) -> (chars: Vec<char>)
    ensures
        chars@ == text@,
{
    let len: usize = text.unicode_len();
    let mut chars: Vec<char> = Vec::new();
    let mut i: usize = 0;
    while i < len
        invariant
            len == text@.len(),
            0 <= i <= len,
            chars@ == text@.subrange(0, i as int),
        decreases len - i,
    {
        chars.push(text.get_char(i));
        assert(chars@ =~= text@.subrange(0, i + 1));
        i = i + 1;
    }
    assert(chars@ =~= text@);
    chars
}

/// Tells whether `pattern` stands in `text` at `at`.
pub fn stands_at(text: &Vec<char>, pattern: &Vec<char>, at: usize) -> (found: bool)
    requires
        at + pattern@.len() <= text@.len(),
    ensures
        found == occurs_at(text@, pattern@, at as int),
{
    let text_len: usize = text.len();
    let mut i: usize = 0;
    while i < pattern.len()
        invariant
            0 <= i <= pattern@.len(),
            at + pattern@.len() <= text@.len() <= usize::MAX,
            forall|k: int| 0 <= k < i ==> text@[at + k] == pattern@[k],
        decreases pattern@.len() - i,
    {
        if text[at + i] != pattern[i] {
            assert(text@.subrange(at as int, at + pattern@.len())[i as int] != pattern@[i as int]);
            return false;
        }
        i = i + 1;
    }
    assert(text@.subrange(at as int, at + pattern@.len()) =~= pattern@);
    true
}

/// Finds the first place at or after `from` at which `pattern` stands in
/// `text`.
pub fn find_from(text: &Vec<char>, pattern: &Vec<char>, from: usize) -> (found: Option<usize>)
    ensures
        match found {
            Some(at) => at == occurrence(text@, pattern@, from as int),
            None => occurrence(text@, pattern@, from as int) == -1,
        },
{
    if pattern.len() > text.len() {
        return None;
    }
    let last: usize = text.len() - pattern.len();
    let mut i: usize = from;
    while i <= last
        invariant
            last == text@.len() - pattern@.len(),
            from <= i,
            occurrence(text@, pattern@, from as int) == occurrence(text@, pattern@, i as int),
        decreases last + 1 - i,
    {
        if stands_at(text, pattern, i) {
            return Some(i);
        }
        if i == last {
            assert(occurrence(text@, pattern@, i + 1) == -1);
            return None;
        }
        i = i + 1;
    }
    None
}

/// Finds where the line that holds `from` ends.
pub fn find_line_end(text: &Vec<char>, from: usize) -> (end: usize)
    requires
        from <= text@.len(),
    ensures
        end == line_end(text@, from as int),
        from <= end <= text@.len(),
{
    let mut i: usize = from;
    while i < text.len()
        invariant
            from <= i <= text@.len(),
            line_end(text@, from as int) == line_end(text@, i as int),
        decreases text@.len() - i,
    {
        if text[i] == '\n' {
            return i + 1;
        }
        i = i + 1;
    }
    i
}

/// Finds where the line that holds `at` begins.
pub fn find_line_start(text: &Vec<char>, at: usize) -> (start: usize)
    requires
        at <= text@.len(),
    ensures
        start == line_start(text@, at as int),
        start <= at,
{
    let mut i: usize = at;
    while i > 0
        invariant
            0 <= i <= at <= text@.len(),
            line_start(text@, at as int) == line_start(text@, i as int),
        decreases i,
    {
        if text[i - 1] == '\n' {
            return i;
        }
        i = i - 1;
    }
    i
}

/// Replaces the lines between the marker pair of `existing` by `insertion`
/// and keeps the rest, the lines of the markers included, as it is. Where the
/// pair is missing nothing is returned.
pub fn splice_between_markers(existing: &str, insertion: &str) -> (merged: Option<String>)
    ensures
        match merged {
            Some(text) => spliced(existing@, insertion@) == Some(text@),
            None => spliced(existing@, insertion@) is None,
        },
{
    let text = to_chars(existing);
    let start_pattern = to_chars("scaffold:insertion-start");
    let end_pattern = to_chars("scaffold:insertion-end");
    match find_from(&text, &start_pattern, 0) {
        None => None,
        Some(start) => {
            proof {
                occurrence_bounds(existing@, start_marker(), 0);
            }
            let head_end: usize = find_line_end(&text, start + start_pattern.len());
            match find_from(&text, &end_pattern, head_end) {
                None => None,
                Some(end) => {
                    proof {
                        occurrence_bounds(existing@, end_marker(), head_end as int);
                    }
                    let tail_start: usize = find_line_start(&text, end);
                    let head = existing.substring_char(0, head_end);
                    let tail = existing.substring_char(tail_start, text.len());
                    Some(String::from_str(head).concat(insertion).concat(tail))
                },
            }
        },
    }
}

/// `pattern` stands somewhere in `text`.
pub open spec fn contains_text(text: Seq<char>, pattern: Seq<char>) -> bool {
    exists|at: int| occurs_at(text, pattern, at)
}

/// Tells whether `pattern` stands somewhere in `text`.
pub fn contains(text: &str, pattern: &str) -> (found: bool)
    ensures
        found == contains_text(text@, pattern@),
{
    let chars = to_chars(text);
    let wanted = to_chars(pattern);
    proof {
        occurrence_bounds(text@, pattern@, 0);
    }
    match find_from(&chars, &wanted, 0) {
        Some(at) => {
            assert(occurs_at(text@, pattern@, at as int));
            true
        },
        None => false,
    }
}

/// A splice changes nothing outside the marker pair: the result begins with
/// the existing text up to the end of the line of the start marker, goes on
/// with the insertion, and ends with the existing text from the beginning of
/// the line of the end marker. Both markers still stand in it.
pub proof fn splice_keeps_outside(existing: Seq<char>, insertion: Seq<char>)
    requires
        spliced(existing, insertion) is Some,
    ensures
        ({
            let merged = spliced(existing, insertion).unwrap();
            let head = kept_head(existing);
            let tail = kept_tail(existing);
            let start = occurrence(existing, start_marker(), 0);
            let end = occurrence(existing, end_marker(), head);
            &&& 0 <= start && start + start_marker().len() <= head <= tail <= end
            &&& end + end_marker().len() <= existing.len()
            &&& merged.len() == head + insertion.len() + (existing.len() - tail)
            &&& merged.subrange(0, head) == existing.subrange(0, head)
            &&& merged.subrange(head, head + insertion.len()) == insertion
            &&& merged.subrange(head + insertion.len(), merged.len() as int) == existing.subrange(
                tail,
                existing.len() as int,
            )
            &&& occurs_at(merged, start_marker(), start)
            &&& occurs_at(merged, end_marker(), head + insertion.len() + (end - tail))
        }),
{
    let merged = spliced(existing, insertion).unwrap();
    let start = occurrence(existing, start_marker(), 0);
    occurrence_bounds(existing, start_marker(), 0);
    line_end_bounds(existing, start + start_marker().len());
    let head = kept_head(existing);
    let end = occurrence(existing, end_marker(), head);
    occurrence_bounds(existing, end_marker(), head);
    reveal_strlit("scaffold:insertion-end");
    assert(end_marker().len() > 0);
    line_start_bounds(existing, end, head);
    let tail = kept_tail(existing);
    assert(merged.subrange(0, head) =~= existing.subrange(0, head));
    assert(merged.subrange(head, head + insertion.len()) =~= insertion);
    assert(merged.subrange(head + insertion.len(), merged.len() as int) =~= existing.subrange(
        tail,
        existing.len() as int,
    ));
    assert(merged.subrange(start, start + start_marker().len()) =~= existing.subrange(
        start,
        start + start_marker().len(),
    ));
    let moved = head + insertion.len() + (end - tail);
    assert(merged.subrange(moved, moved + end_marker().len()) =~= existing.subrange(
        end,
        end + end_marker().len(),
    ));
}

/// A text in which a start marker stands, and an end marker at or behind the
/// end of the line of the first start marker, can be spliced.
pub proof fn marked_text_can_be_spliced(
    existing: Seq<char>,
    insertion: Seq<char>,
    start_at: int,
    end_at: int,
)
    requires
        occurs_at(existing, start_marker(), start_at),
        occurs_at(existing, end_marker(), end_at),
        kept_head(existing) <= end_at,
    ensures
        spliced(existing, insertion) is Some,
{
    occurrence_bounds(existing, start_marker(), 0);
    let start = occurrence(existing, start_marker(), 0);
    line_end_bounds(existing, start + start_marker().len());
    let head = kept_head(existing);
    occurrence_bounds(existing, end_marker(), head);
    let end = occurrence(existing, end_marker(), head);
    line_start_bounds(existing, end, 0);
}

} // verus!
