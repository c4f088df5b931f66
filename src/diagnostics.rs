//! Placing a caret under the token a parse error names: a token column is
//! turned into a character offset within the source line.
use vstd::prelude::*;
use crate::text::chars_of;

verus! {

/// The first index from `i` on that is not a space.
pub open spec fn skip_spaces(s: Seq<char>, i: int) -> int
    decreases s.len() - i,
{
    if 0 <= i < s.len() && s[i] == ' ' {
        skip_spaces(s, i + 1)
    } else {
        i
    }
}

/// The first index from `i` on that is neither a space nor a comma.
pub open spec fn skip_separators(s: Seq<char>, i: int) -> int
    decreases s.len() - i,
{
    if 0 <= i < s.len() && (s[i] == ' ' || s[i] == ',') {
        skip_separators(s, i + 1)
    } else {
        i
    }
}

/// The offset reached from `count` with `remaining` token boundaries still
/// to pass: a `:` or `,` passes one boundary along with the character after
/// it and the spaces that follow; a space passes one along with the spaces
/// and commas that follow; any other character is part of a token.
pub open spec fn caret_scan(s: Seq<char>, count: int, remaining: int) -> int
    decreases s.len() - count,
{
    if remaining <= 0 || !(0 <= count < s.len()) {
        count
    } else {
        let c = s[count];
        if c == ':' || c == ',' {
            let j = skip_spaces(s, count + 2);
            if count < j <= s.len() {
                caret_scan(s, j, remaining - 1)
            } else {
                j
            }
        } else if c == ' ' {
            let j = skip_separators(s, count + 1);
            if count < j <= s.len() {
                caret_scan(s, j, remaining - 1)
            } else {
                j
            }
        } else {
            caret_scan(s, count + 1, remaining)
        }
    }
}

/// The character offset of token column `column` (1-based) in `s`: leading
/// spaces are skipped, and count as one boundary.
pub open spec fn caret_column(s: Seq<char>, column: int) -> int {
    let start = skip_spaces(s, 0);
    let remaining = if start > 0 && column - 1 > 0 {
        column - 2
    } else {
        column - 1
    };
    caret_scan(s, start, remaining)
}

/// Each skip ends at or after where it starts, and not past the end unless
/// it starts there.
pub proof fn lemma_skip_bounds(s: Seq<char>, i: int)
    requires
        0 <= i,
    ensures
        i <= skip_spaces(s, i),
        i <= skip_separators(s, i),
        i <= s.len() ==> skip_spaces(s, i) <= s.len() && skip_separators(s, i) <= s.len(),
        i > s.len() ==> skip_spaces(s, i) == i && skip_separators(s, i) == i,
    decreases s.len() - i,
{
    if i < s.len() {
        lemma_skip_bounds(s, i + 1);
    }
}

/// The character offset in `line` at which to put the caret for token
/// column `column_count` (1-based) of a diagnostic.
pub fn count_char_columns(line: &str, column_count: usize) -> (r: usize)
    requires
        column_count >= 1,
        line@.len() + 2 < usize::MAX,
    ensures
        r == caret_column(line@, column_count as int),
{
    let chars = chars_of(line);
    let ghost s = chars@;
    let mut count: usize = 0;
    let mut remaining_columns: usize = column_count - 1;
    while count < chars.len() && chars[count] == ' '
        invariant
            s == chars@,
            s == line@,
            count <= s.len(),
            skip_spaces(s, count as int) == skip_spaces(s, 0),
        decreases chars.len() - count,
    {
        count = count + 1;
    }
    if count > 0 && remaining_columns > 0 {
        remaining_columns = remaining_columns - 1;
    }
    while count < chars.len() && remaining_columns > 0
        invariant
            s == chars@,
            s == line@,
            s.len() + 2 < usize::MAX,
            count <= s.len() + 1,
            caret_scan(s, count as int, remaining_columns as int) == caret_column(
                s,
                column_count as int,
            ),
        decreases chars.len() + 1 - count,
    {
        let c = chars[count];
        let ghost before = count as int;
        count = count + 1;
        if c == ':' || c == ',' {
            remaining_columns = remaining_columns - 1;
            count = count + 1;
            while count < chars.len() && chars[count] == ' '
                invariant
                    s == chars@,
                    before + 2 <= count <= s.len() + 1,
                    before < s.len(),
                    skip_spaces(s, count as int) == skip_spaces(s, before + 2),
                decreases chars.len() - count,
            {
                count = count + 1;
            }
            proof {
                lemma_skip_bounds(s, count as int);
            }
        }
        if c == ' ' {
            remaining_columns = remaining_columns - 1;
            while count < chars.len() && (chars[count] == ' ' || chars[count] == ',')
                invariant
                    s == chars@,
                    before + 1 <= count <= s.len(),
                    skip_separators(s, count as int) == skip_separators(s, before + 1),
                decreases chars.len() - count,
            {
                count = count + 1;
            }
        }
    }
    count
}

} // verus!
