//! Editing a text at a cursor that counts UTF-16 code units, as Java counts them.

use vstd::prelude::*;

use crate::text;

verus! {

/// `char::from_u32`: the character with a code point, none where the number is no
/// Unicode scalar value.
pub assume_specification[ char::from_u32 ](code: u32) -> (c: Option<char>)
    ensures
        c == (if code < 0xD800 || 0xE000 <= code <= 0x10FFFF {
            Some(code as char)
        } else {
            None
        }),
;

/// The number of UTF-16 code units of a character.
pub open spec fn units(c: char) -> nat {
    if c as u32 >= 0x1_0000 {
        2
    } else {
        1
    }
}

/// The number of UTF-16 code units of a text.
pub open spec fn utf16_len(s: Seq<char>) -> nat
    decreases s.len(),
{
    if s.len() == 0 {
        0
    } else {
        utf16_len(s.drop_last()) + units(s.last())
    }
}

/// A number cut off at the largest `int` of Java.
pub open spec fn capped(n: nat) -> i32 {
    if n <= i32::MAX {
        n as i32
    } else {
        i32::MAX
    }
}

/// How many characters stand before a cursor that counts UTF-16 code units: as
/// many as fit into it.
pub open spec fn chars_before(s: Seq<char>, cursor: int) -> nat
    decreases s.len(),
{
    if s.len() == 0 {
        0
    } else if utf16_len(s) <= cursor {
        s.len()
    } else {
        chars_before(s.drop_last(), cursor)
    }
}

/// Whether a character is a control character: below space, delete, or in the
/// second control block.
pub open spec fn is_control(c: char) -> bool {
    c as u32 <= 0x1F || 0x7F <= c as u32 <= 0x9F
}

/// The character that a typed code stands for: none for a code that is no
/// character, and none for a control character other than a line feed or a tab.
pub open spec fn typed(unicode: i32) -> Option<char> {
    let code = unicode as int;
    if (0 <= code < 0xD800 || 0xE000 <= code <= 0x10FFFF) && (!is_control(code as char)
        || code as char == '\n' || code as char == '\t') {
        Some(code as char)
    } else {
        None
    }
}

/// A text and a cursor in it.
pub struct Edited {
    pub text: Seq<char>,
    pub cursor: i32,
}

/// What an edit makes of a text: a character is put in at the cursor, a backspace
/// takes out the character before it, and with everything selected either takes
/// the place of the whole text.
pub open spec fn edit(
    old: Seq<char>,
    cursor: i32,
    inserted: Option<char>,
    backspace: bool,
    replace_all: bool,
) -> Edited {
    if replace_all {
        if backspace {
            Edited { text: Seq::empty(), cursor: 0 }
        } else {
            match inserted {
                Some(c) => Edited { text: seq![c], cursor: units(c) as i32 },
                None => Edited {
                    text: old,
                    cursor: if cursor < 0 {
                        0
                    } else if cursor > capped(utf16_len(old)) {
                        capped(utf16_len(old))
                    } else {
                        cursor
                    },
                },
            }
        }
    } else {
        let at = chars_before(old, cursor as int) as int;
        let before = old.take(at);
        let after = old.skip(at);
        if backspace {
            if at == 0 {
                Edited { text: old, cursor: 0 }
            } else {
                Edited {
                    text: before.drop_last() + after,
                    cursor: utf16_len(before.drop_last()) as i32,
                }
            }
        } else {
            match inserted {
                Some(c) => Edited {
                    text: before.push(c) + after,
                    cursor: capped(utf16_len(before.push(c))),
                },
                None => Edited { text: old, cursor: utf16_len(before) as i32 },
            }
        }
    }
}

/// The code units of a longer beginning are more.
pub proof fn lemma_utf16_len_monotonic(s: Seq<char>, i: int, j: int)
    requires
        0 <= i <= j <= s.len(),
    ensures
        utf16_len(s.take(i)) + (j - i) <= utf16_len(s.take(j)),
    decreases j - i,
{
    if i < j {
        lemma_utf16_len_monotonic(s, i, j - 1);
        assert(s.take(j).drop_last() =~= s.take(j - 1));
    }
}

/// The characters before a cursor are those that fit, and one more does not.
pub proof fn lemma_chars_before(s: Seq<char>, cursor: int)
    requires
        cursor >= 0,
    ensures
        chars_before(s, cursor) <= s.len(),
        utf16_len(s.take(chars_before(s, cursor) as int)) <= cursor,
        chars_before(s, cursor) < s.len() ==> utf16_len(
            s.take(chars_before(s, cursor) as int + 1),
        ) > cursor,
    decreases s.len(),
{
    if s.len() == 0 {
        assert(s.take(0) =~= s);
    } else if utf16_len(s) <= cursor {
        assert(s.take(s.len() as int) =~= s);
    } else {
        let t = s.drop_last();
        lemma_chars_before(t, cursor);
        let k = chars_before(t, cursor) as int;
        assert(t.take(k) =~= s.take(k));
        if k < t.len() {
            assert(t.take(k + 1) =~= s.take(k + 1));
        } else {
            assert(s.take(k + 1) =~= s);
        }
    }
}

/// A number of characters that fit, where one more does not, is the number before
/// the cursor.
proof fn lemma_chars_before_is(s: Seq<char>, cursor: int, k: int)
    requires
        cursor >= 0,
        0 <= k <= s.len(),
        utf16_len(s.take(k)) <= cursor,
        k < s.len() ==> utf16_len(s.take(k + 1)) > cursor,
    ensures
        chars_before(s, cursor) == k,
{
    lemma_chars_before(s, cursor);
    let n = chars_before(s, cursor) as int;
    if n < k {
        lemma_utf16_len_monotonic(s, n + 1, k);
    } else if k < n {
        lemma_utf16_len_monotonic(s, k + 1, n);
    }
}

/// A cursor below zero has nothing before it.
proof fn lemma_negative_cursor(s: Seq<char>, cursor: int)
    requires
        cursor <= 0,
    ensures
        chars_before(s, cursor) == 0,
        chars_before(s, 0) == 0,
    decreases s.len(),
{
    if s.len() > 0 {
        lemma_negative_cursor(s.drop_last(), cursor);
        assert(utf16_len(s) >= 1);
    }
}

/// The number of UTF-16 code units of a character.
pub fn len_utf16(c: char) -> (n: u32)
    ensures
        n == units(c),
        n == 1 || n == 2,
        n == 2 <==> c as u32 >= 0x1_0000,
{
    if c as u32 >= 0x1_0000 {
        2
    } else {
        1
    }
}

/// The cursor behind the last character of a text, cut off at the largest `int`
/// of Java.
pub fn java_cursor_position(s: &str) -> (cursor: i32)
    ensures
        cursor == capped(utf16_len(s@)),
{
    let chars = text::chars_of(s);
    cursor_at_end(&chars)
}

fn cursor_at_end(chars: &[char]) -> (cursor: i32)
    ensures
        cursor == capped(utf16_len(chars@)),
{
    let mut count: u32 = 0;
    let mut i: usize = 0;
    assert(chars@.take(0) =~= Seq::<char>::empty());
    while i < chars.len()
        invariant
            i <= chars@.len(),
            count == utf16_len(chars@.take(i as int)),
            count <= i32::MAX,
        decreases chars@.len() - i,
    {
        assert(chars@.take(i + 1).drop_last() =~= chars@.take(i as int));
        count = count + len_utf16(chars[i]);
        i += 1;
        if count > i32::MAX as u32 {
            proof {
                lemma_utf16_len_monotonic(chars@, i as int, chars@.len() as int);
                assert(chars@.take(chars@.len() as int) =~= chars@);
            }
            return i32::MAX;
        }
    }
    assert(chars@.take(chars@.len() as int) =~= chars@);
    count as i32
}

/// How many characters stand before a cursor, and the cursor that stands right
/// behind them.
pub fn utf16_cursor_char_offset(chars: &[char], requested: i32) -> (offset: (usize, i32))
    ensures
        offset.0 == chars_before(chars@, requested as int),
        offset.0 <= chars@.len(),
        offset.1 == utf16_len(chars@.take(offset.0 as int)),
        0 <= offset.1,
        offset.1 <= requested || offset.1 == 0,
{
    assert(chars@.take(0) =~= Seq::<char>::empty());
    if requested <= 0 {
        proof {
            lemma_negative_cursor(chars@, requested as int);
        }
        return (0, 0);
    }
    let wanted: u32 = requested as u32;
    let mut count: u32 = 0;
    let mut i: usize = 0;
    while i < chars.len()
        invariant
            i <= chars@.len(),
            wanted == requested,
            0 < requested,
            count == utf16_len(chars@.take(i as int)),
            count <= wanted,
        decreases chars@.len() - i,
    {
        assert(chars@.take(i + 1).drop_last() =~= chars@.take(i as int));
        let next: u32 = count + len_utf16(chars[i]);
        if next > wanted {
            proof {
                lemma_chars_before_is(chars@, requested as int, i as int);
            }
            return (i, count as i32);
        }
        count = next;
        i += 1;
    }
    proof {
        lemma_chars_before_is(chars@, requested as int, i as int);
    }
    (i, count as i32)
}

/// The character that a typed code stands for.
pub fn typed_char(unicode: i32) -> (c: Option<char>)
    ensures
        c == typed(unicode),
        c is Some <==> (unicode == 9 || unicode == 10 || 32 <= unicode < 127 || 160 <= unicode
            < 0xD800 || 0xE000 <= unicode <= 0x10FFFF),
        c is Some ==> c->0 as u32 == unicode,
{
    if unicode < 0 {
        return None;
    }
    match char::from_u32(unicode as u32) {
        Some(c) => {
            let code: u32 = c as u32;
            let control = code <= 0x1F || (0x7F <= code && code <= 0x9F);
            if !control || c == '\n' || c == '\t' {
                Some(c)
            } else {
                None
            }
        },
        None => None,
    }
}

/// The text and the cursor after a character was typed or a backspace was
/// pressed. See `edit`.
pub fn apply_text_edit_at_utf16(
    old: &str,
    cursor: i32,
    unicode: i32,
    backspace: bool,
    replace_all: bool,
) -> (result: (String, i32))
    ensures
        ({
            let e = edit(old@, cursor, typed(unicode), backspace, replace_all);
            result.0@ == e.text && result.1 == e.cursor
        }),
        forall|before: Seq<char>, after: Seq<char>|
            !backspace && !replace_all && cursor == utf16_len(before) && old@ == #[trigger] (before
                + after) && (unicode == 9 || unicode == 10 || 32 <= unicode < 127 || 160 <= unicode
                < 0xD800 || 0xE000 <= unicode <= 0x10FFFF) ==> {
                &&& result.0@ == before.push(unicode as char) + after
                &&& result.1 == cursor + (if unicode >= 0x1_0000 {
                    2int
                } else {
                    1
                }) || result.1 == i32::MAX
            },
{
    proof {
        assert forall|before: Seq<char>, after: Seq<char>|
            cursor == utf16_len(before) && old@ == #[trigger] (before + after) && !replace_all
                && !backspace implies ({
            let e = edit(before + after, cursor, typed(unicode), false, false);
            let scalar = unicode == 9 || unicode == 10 || 32 <= unicode < 127 || 160 <= unicode
                < 0xD800 || 0xE000 <= unicode <= 0x10FFFF;
            scalar ==> e.text == before.push(unicode as char) + after && (e.cursor == cursor + (
            if unicode >= 0x1_0000 {
                2int
            } else {
                1
            }) || e.cursor == i32::MAX)
        }) by {
            law_typing_puts_the_character_in(before, after, cursor, unicode);
        }
    }
    let inserted = typed_char(unicode);
    let chars = text::chars_of(old);
    if replace_all {
        if backspace {
            let empty = String::new();
            assert(empty@ =~= Seq::<char>::empty());
            return (empty, 0);
        }
        if let Some(c) = inserted {
            let mut s = String::new();
            s.push(c);
            assert(s@ =~= seq![c]);
            return (s, len_utf16(c) as i32);
        }
        let end: i32 = cursor_at_end(&chars);
        let kept: i32 = if cursor < 0 {
            0
        } else if cursor > end {
            end
        } else {
            cursor
        };
        return (old.to_owned(), kept);
    }
    let (at, at_cursor) = utf16_cursor_char_offset(&chars, cursor);
    let ghost before = chars@.take(at as int);
    let ghost after = chars@.skip(at as int);
    if backspace {
        if at == 0 {
            return (old.to_owned(), 0);
        }
        let previous: char = chars[at - 1];
        let mut edited = text::part(&chars, 0, at - 1);
        let mut tail = text::part(&chars, at, chars.len());
        edited.append(&mut tail);
        assert(edited@ =~= before.drop_last() + after);
        assert(before.last() == previous);
        let back: i32 = at_cursor - len_utf16(previous) as i32;
        return (text::string_of(&edited), back);
    }
    if let Some(c) = inserted {
        let mut edited = text::part(&chars, 0, at);
        edited.push(c);
        let mut tail = text::part(&chars, at, chars.len());
        edited.append(&mut tail);
        assert(edited@ =~= before.push(c) + after);
        assert(before.push(c).drop_last() =~= before);
        let width: i32 = len_utf16(c) as i32;
        let moved: i32 = if at_cursor > i32::MAX - width {
            i32::MAX
        } else {
            at_cursor + width
        };
        return (text::string_of(&edited), moved);
    }
    (old.to_owned(), at_cursor)
}

/// Typing a character and then pressing backspace gives back the text, with
/// the cursor right behind the characters that were before it.
pub proof fn law_backspace_undoes_typing(old: Seq<char>, cursor: i32, c: char)
    requires
        utf16_len(old) + 2 <= i32::MAX,
    ensures
        ({
            let typed = edit(old, cursor, Some(c), false, false);
            let undone = edit(typed.text, typed.cursor, None, true, false);
            &&& undone.text == old
            &&& undone.cursor == utf16_len(old.take(chars_before(old, cursor as int) as int))
        }),
{
    if cursor >= 0 {
        lemma_chars_before(old, cursor as int);
    } else {
        lemma_negative_cursor(old, cursor as int);
    }
    let at = chars_before(old, cursor as int) as int;
    let before = old.take(at);
    let after = old.skip(at);
    lemma_utf16_len_monotonic(old, at, old.len() as int);
    assert(old.take(old.len() as int) =~= old);
    assert(before.push(c).drop_last() =~= before);
    let typed = edit(old, cursor, Some(c), false, false);
    assert(typed.text.take(at + 1) =~= before.push(c));
    assert(typed.cursor == utf16_len(before.push(c)));
    if at + 1 < typed.text.len() {
        assert(typed.text.take(at + 2).drop_last() =~= before.push(c));
    }
    lemma_chars_before_is(typed.text, typed.cursor as int, at + 1);
    assert(typed.text.skip(at + 1) =~= after);
    let undone = edit(typed.text, typed.cursor, None, true, false);
    assert(undone.text =~= old);
}

/// After an edit the cursor stands within the text, never before its
/// beginning.
pub proof fn law_cursor_stays_within_the_text(
    old: Seq<char>,
    cursor: i32,
    inserted: Option<char>,
    backspace: bool,
    replace_all: bool,
)
    ensures
        ({
            let e = edit(old, cursor, inserted, backspace, replace_all);
            0 <= e.cursor <= capped(utf16_len(e.text))
        }),
{
    let at = chars_before(old, cursor as int) as int;
    if cursor >= 0 {
        lemma_chars_before(old, cursor as int);
    } else {
        lemma_negative_cursor(old, cursor as int);
    }
    let before = old.take(at);
    let after = old.skip(at);
    assert(old.take(old.len() as int) =~= old);
    lemma_utf16_len_monotonic(old, at, old.len() as int);
    assert(utf16_len(Seq::<char>::empty()) == 0);
    if inserted is Some {
        let c = inserted->0;
        let one = seq![c];
        assert(one.drop_last() =~= Seq::<char>::empty());
        let e = before.push(c) + after;
        assert(e.take(at + 1) =~= before.push(c));
        assert(e.take(e.len() as int) =~= e);
        lemma_utf16_len_monotonic(e, at + 1, e.len() as int);
    }
    if at > 0 {
        let e = before.drop_last() + after;
        assert(e.take(at - 1) =~= before.drop_last());
        assert(e.take(e.len() as int) =~= e);
        lemma_utf16_len_monotonic(e, at - 1, e.len() as int);
        assert(utf16_len(before.drop_last()) <= utf16_len(before));
    } else {
        assert(before =~= Seq::<char>::empty());
    }
}

/// The code units of a text are those of its parts: none of an empty text, one of a
/// character below the supplementary planes, and two of any other.
pub proof fn law_code_units_add_up(a: Seq<char>, b: Seq<char>, c: char)
    ensures
        utf16_len(Seq::<char>::empty()) == 0,
        utf16_len(seq![c]) == (if c as u32 >= 0x1_0000 {
            2nat
        } else {
            1
        }),
        utf16_len(a + b) == utf16_len(a) + utf16_len(b),
    decreases b.len(),
{
    assert(seq![c].drop_last() =~= Seq::<char>::empty());
    reveal_with_fuel(utf16_len, 2);
    if b.len() > 0 {
        law_code_units_add_up(a, b.drop_last(), c);
        assert((a + b).drop_last() =~= a + b.drop_last());
    } else {
        assert(a + b =~= a);
    }
}

proof fn lemma_cursor_between(before: Seq<char>, after: Seq<char>, cursor: int)
    requires
        utf16_len(before) <= cursor,
        after.len() > 0 ==> cursor < utf16_len(before) + units(after[0]),
    ensures
        chars_before(before + after, cursor) == before.len(),
        (before + after).take(before.len() as int) == before,
        (before + after).skip(before.len() as int) == after,
{
    let s = before + after;
    let k = before.len() as int;
    assert(s.take(k) =~= before);
    assert(s.skip(k) =~= after);
    if after.len() > 0 {
        assert(s.take(k + 1).drop_last() =~= before);
        assert(s.take(k + 1).last() == after[0]);
    }
    lemma_chars_before_is(s, cursor, k);
}

/// Typing puts a character in at the cursor and moves the cursor behind it. That goes for
/// a line feed, for a tab, and for every Unicode scalar value that is no control
/// character; any other code changes nothing.
pub proof fn law_typing_puts_the_character_in(
    before: Seq<char>,
    after: Seq<char>,
    cursor: i32,
    unicode: i32,
)
    requires
        cursor == utf16_len(before),
    ensures
        ({
            let e = edit(before + after, cursor, typed(unicode), false, false);
            let scalar = unicode == 9 || unicode == 10 || 32 <= unicode < 127 || 160 <= unicode
                < 0xD800 || 0xE000 <= unicode <= 0x10FFFF;
            let width = if unicode >= 0x1_0000 {
                2int
            } else {
                1
            };
            &&& scalar ==> e.text == before.push(unicode as char) + after
            &&& scalar && cursor + width <= i32::MAX ==> e.cursor == cursor + width
            &&& scalar && cursor + width > i32::MAX ==> e.cursor == i32::MAX
            &&& !scalar ==> e.text == before + after && e.cursor == cursor
        }),
{
    lemma_cursor_between(before, after, cursor as int);
    let c = unicode as char;
    assert(before.push(c).drop_last() =~= before);
}

/// A backspace takes out the character before the cursor, and the cursor goes to where
/// that character began; at the beginning of the text it changes nothing.
pub proof fn law_backspace_takes_the_character_out(
    before: Seq<char>,
    c: char,
    after: Seq<char>,
    inserted: Option<char>,
    cursor: i32,
)
    requires
        cursor == utf16_len(before.push(c)),
    ensures
        ({
            let e = edit(before.push(c) + after, cursor, inserted, true, false);
            &&& e.text == before + after
            &&& e.cursor == utf16_len(before)
            &&& e.cursor == cursor - (if c as u32 >= 0x1_0000 {
                2int
            } else {
                1
            })
        }),
        ({
            let e = edit(after, 0, inserted, true, false);
            e.text == after && e.cursor == 0
        }),
{
    lemma_cursor_between(before.push(c), after, cursor as int);
    assert(before.push(c).drop_last() =~= before);
    lemma_negative_cursor(after, 0);
}

/// With everything selected, a typed character takes the place of the whole text, a
/// backspace leaves nothing, and a code that is no character leaves the text as it is.
pub proof fn law_selection_is_replaced(
    old: Seq<char>,
    cursor: i32,
    c: char,
    inserted: Option<char>,
)
    ensures
        ({
            let e = edit(old, cursor, Some(c), false, true);
            e.text == seq![c] && e.cursor == (if c as u32 >= 0x1_0000 {
                2int
            } else {
                1
            })
        }),
        ({
            let e = edit(old, cursor, inserted, true, true);
            e.text.len() == 0 && e.cursor == 0
        }),
        edit(old, cursor, None, false, true).text == old,
        0 <= cursor <= utf16_len(old) ==> edit(old, cursor, None, false, true).cursor == cursor,
{
}

/// A cursor that stands within a character, before the text or behind it edits where the
/// nearest character before it ends.
pub proof fn law_cursor_is_set_to_a_character(
    before: Seq<char>,
    after: Seq<char>,
    cursor: i32,
    set: i32,
    inserted: Option<char>,
    backspace: bool,
)
    requires
        set == utf16_len(before),
        ({
            ||| after.len() > 0 && after[0] as u32 >= 0x1_0000 && cursor == set + 1
            ||| after.len() == 0 && cursor > set
            ||| before.len() == 0 && cursor < 0
        }),
    ensures
        ({
            let e = edit(before + after, cursor, inserted, backspace, false);
            let f = edit(before + after, set, inserted, backspace, false);
            e.text == f.text && e.cursor == f.cursor
        }),
{
    lemma_cursor_between(before, after, set as int);
    if cursor >= 0 {
        lemma_cursor_between(before, after, cursor as int);
    } else {
        lemma_negative_cursor(before + after, cursor as int);
    }
}

} // verus!
