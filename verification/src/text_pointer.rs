//! Where in a text the pointer points: from the line and the place in it to a cursor
//! that counts UTF-16 code units.

use vstd::prelude::*;

use crate::text;
use crate::text_edit;
use crate::text_field::{TextboxSession, ROBLOX_CODE_FONT};

verus! {

/// The code units of the lines before a line, and of the line breaks behind them.
pub open spec fn units_before_line(lines: Seq<Seq<char>>, line: int) -> nat
    decreases line,
{
    if line <= 0 {
        0
    } else {
        units_before_line(lines, line - 1) + text_edit::utf16_len(lines[line - 1]) + 1
    }
}

/// The first characters of a line, all of them where there are not as many.
pub open spec fn beginning(line: Seq<char>, chars: int) -> Seq<char> {
    if chars <= line.len() {
        line.take(chars)
    } else {
        line
    }
}

/// The code units before a place in a line, or of the whole text where there is no
/// such line.
pub open spec fn units_before(s: Seq<char>, line: int, chars: int) -> nat {
    let lines = text::parts(s, '\n');
    if line < lines.len() {
        units_before_line(lines, line) + text_edit::utf16_len(beginning(lines[line], chars))
    } else {
        text_edit::utf16_len(s)
    }
}

/// A count as an `int` of Java, none where that cannot hold it.
pub open spec fn java_int(n: nat) -> Option<i32> {
    if n <= i32::MAX {
        Some(n as i32)
    } else {
        None
    }
}

/// Whether the pointer can be placed in the text of a field: it is shown in the font
/// for code, and does not wrap.
pub fn shows_code(session: &TextboxSession) -> (b: bool)
    ensures
        b == (session.font == ROBLOX_CODE_FONT && !session.text_wrapped),
        b == (session.font == 10 && !session.text_wrapped),
{
    session.font == ROBLOX_CODE_FONT && !session.text_wrapped
}

/// The code units of the first characters of a line, where Java can count them.
fn count_units(line: &[char], chars: usize) -> (units: Option<i32>)
    requires
        chars <= line@.len(),
    ensures
        units == java_int(text_edit::utf16_len(line@.take(chars as int))),
{
    let mut units: i64 = 0;
    let mut i: usize = 0;
    while i < chars
        invariant
            i <= chars <= line@.len(),
            units == text_edit::utf16_len(line@.take(i as int)),
            units <= i32::MAX,
        decreases chars - i,
    {
        assert(line@.take(i + 1).drop_last() =~= line@.take(i as int));
        units = units + text_edit::len_utf16(line[i]) as i64;
        i += 1;
        if units > i32::MAX as i64 {
            proof {
                text_edit::lemma_utf16_len_monotonic(line@, i as int, chars as int);
            }
            return None;
        }
    }
    Some(units as i32)
}

proof fn lemma_units_grow(lines: Seq<Seq<char>>, i: int, j: int)
    requires
        0 <= i <= j,
    ensures
        units_before_line(lines, i) <= units_before_line(lines, j),
    decreases j - i,
{
    if i < j {
        lemma_units_grow(lines, i, j - 1);
    }
}

/// The cursor at a place in a line of a text: behind the first `chars` characters of
/// the line, or at the end of the text where there is no such line. There is none
/// where Java cannot count as far.
pub fn cursor_at(s: &str, line: usize, chars: usize) -> (cursor: Option<i32>)
    ensures
        cursor == java_int(units_before(s@, line as int, chars as int)),
        match cursor {
            Some(n) => n == units_before(s@, line as int, chars as int),
            None => units_before(s@, line as int, chars as int) > 0x7FFF_FFFF,
        },
{
    let all = text::chars_of(s);
    let lines = text::split(&all, '\n');
    let ghost parts = text::parts(s@, '\n');
    if line >= lines.len() {
        let n: usize = all.len();
        assert(all@.take(n as int) =~= all@);
        return count_units(&all, n);
    }
    let mut units: i64 = 0;
    let mut i: usize = 0;
    while i < line
        invariant
            i <= line < lines@.len(),
            lines@.len() == parts.len(),
            parts == text::parts(s@, '\n'),
            forall|k: int| 0 <= k < lines@.len() ==> (#[trigger] lines@[k])@ == parts[k],
            units == units_before_line(parts, i as int),
            units <= i32::MAX,
        decreases line - i,
    {
        let whole: usize = lines[i].len();
        assert(lines@[i as int]@.take(whole as int) =~= parts[i as int]);
        let of_line: Option<i32> = count_units(&lines[i], whole);
        i += 1;
        proof {
            lemma_units_grow(parts, i as int, line as int);
        }
        match of_line {
            Some(n) => {
                units = units + n as i64 + 1;
            },
            None => {
                return None;
            },
        }
        if units > i32::MAX as i64 {
            return None;
        }
    }
    let whole: usize = lines[line].len();
    let taken: usize = if chars <= whole {
        chars
    } else {
        whole
    };
    assert(lines@[line as int]@.take(taken as int) =~= beginning(
        parts[line as int],
        chars as int,
    ));
    match count_units(&lines[line], taken) {
        Some(n) => {
            let total: i64 = units + n as i64;
            if total <= i32::MAX as i64 {
                Some(total as i32)
            } else {
                None
            }
        },
        None => None,
    }
}

proof fn lemma_utf16_len_of_sum(a: Seq<char>, b: Seq<char>)
    ensures
        text_edit::utf16_len(a + b) == text_edit::utf16_len(a) + text_edit::utf16_len(b),
    decreases b.len(),
{
    if b.len() == 0 {
        assert(a + b =~= a);
    } else {
        lemma_utf16_len_of_sum(a, b.drop_last());
        assert((a + b).drop_last() =~= a + b.drop_last());
    }
}

proof fn lemma_shifted_units(first: Seq<char>, rest: Seq<Seq<char>>, line: int)
    requires
        0 <= line <= rest.len(),
    ensures
        units_before_line(seq![first] + rest, line + 1) == text_edit::utf16_len(first) + 1
            + units_before_line(rest, line),
    decreases line,
{
    let all = seq![first] + rest;
    if line > 0 {
        lemma_shifted_units(first, rest, line - 1);
        assert(all[line] == rest[line - 1]);
    } else {
        assert(units_before_line(all, 0) == 0);
        assert(all[0] == first);
    }
}

proof fn lemma_lines_make_the_text(s: Seq<char>)
    ensures
        units_before_line(text::parts(s, '\n'), text::parts(s, '\n').len() as int)
            == text_edit::utf16_len(s) + 1,
    decreases s.len(),
{
    let lines = text::parts(s, '\n');
    text::lemma_find(s, '\n');
    if text::has(s, '\n') {
        let first = text::before(s, '\n');
        let rest = text::after(s, '\n');
        lemma_lines_make_the_text(rest);
        lemma_shifted_units(first, text::parts(rest, '\n'), text::parts(rest, '\n').len() as int);
        assert(s =~= first.push('\n') + rest);
        lemma_utf16_len_of_sum(first.push('\n'), rest);
        assert(first.push('\n').drop_last() =~= first);
        assert(text_edit::units('\n') == 1);
    } else {
        assert(lines =~= seq![s]);
        assert(units_before_line(lines, 0) == 0);
        assert(units_before_line(lines, 1) == text_edit::utf16_len(lines[0]) + 1);
    }
}

/// Wherever the pointer points, the cursor is within the text.
pub proof fn law_pointed_cursor_is_within_the_text(s: Seq<char>, line: int, chars: int)
    requires
        0 <= line,
        0 <= chars,
    ensures
        units_before(s, line, chars) <= text_edit::utf16_len(s),
{
    let lines = text::parts(s, '\n');
    if line < lines.len() {
        lemma_lines_make_the_text(s);
        lemma_units_grow(lines, line + 1, lines.len() as int);
        let l = lines[line];
        if chars <= l.len() {
            text_edit::lemma_utf16_len_monotonic(l, chars, l.len() as int);
            assert(l.take(l.len() as int) =~= l);
        }
    }
}

/// The cursor of a later place in a line is not before that of an earlier one.
pub proof fn law_pointed_cursor_grows_along_a_line(s: Seq<char>, line: int, a: int, b: int)
    requires
        0 <= line,
        0 <= a <= b,
    ensures
        units_before(s, line, a) <= units_before(s, line, b),
{
    let lines = text::parts(s, '\n');
    if line < lines.len() {
        let l = lines[line];
        let to_a = if a <= l.len() {
            a
        } else {
            l.len() as int
        };
        let to_b = if b <= l.len() {
            b
        } else {
            l.len() as int
        };
        text_edit::lemma_utf16_len_monotonic(l, to_a, to_b);
        assert(l.take(l.len() as int) =~= l);
    }
}

/// The cursor counts the code units that stand before a place: within the first line
/// those of its beginning, and for every line that is passed over those of the line
/// and one for its end. A line that is not there is at the end of the text.
pub proof fn law_cursor_counts_what_stands_before(
    line: Seq<char>,
    rest: Seq<char>,
    n: int,
    chars: int,
)
    requires
        forall|i: int| 0 <= i < line.len() ==> #[trigger] line[i] != '\n',
        0 <= n,
        0 <= chars,
    ensures
        chars <= line.len() ==> units_before(line, 0, chars) == text_edit::utf16_len(
            line.take(chars),
        ),
        chars > line.len() ==> units_before(line, 0, chars) == text_edit::utf16_len(line),
        units_before(line, n + 1, chars) == text_edit::utf16_len(line),
        units_before(line.push('\n') + rest, 0, chars) == units_before(line, 0, chars),
        units_before(line.push('\n') + rest, n + 1, chars) == text_edit::utf16_len(line) + 1
            + units_before(rest, n, chars),
{
    let s = line.push('\n') + rest;
    text::lemma_find(line, '\n');
    text::lemma_find(s, '\n');
    assert(text::parts(line, '\n') =~= seq![line]);
    assert(units_before_line(seq![line], 0) == 0);
    assert(s[line.len() as int] == '\n');
    assert forall|i: int| 0 <= i < line.len() implies #[trigger] s[i] != '\n' by {
        assert(s[i] == line[i]);
    }
    assert(text::find(s, '\n') == line.len());
    assert(text::before(s, '\n') =~= line);
    assert(text::after(s, '\n') =~= rest);
    let lines = text::parts(rest, '\n');
    let all = text::parts(s, '\n');
    assert(all =~= seq![line] + lines);
    assert(all[0] == line);
    assert(units_before_line(all, 0) == 0);
    if n < lines.len() {
        lemma_shifted_units(line, lines, n);
        assert(all[n + 1] == lines[n]);
    } else {
        lemma_utf16_len_of_sum(line.push('\n'), rest);
        assert(line.push('\n').drop_last() =~= line);
        assert(text_edit::units('\n') == 1);
    }
}

} // verus!
