//! Text as a sequence of characters: trimming, splitting, comparing, and reading
//! decimal numbers.

use vstd::prelude::*;

verus! {

/// `String::push` appends one character.
pub assume_specification[ String::push ](s: &mut String, c: char)
    ensures
        final(s)@ == old(s)@.push(c),
;

/// Whether a character has the Unicode property White_Space.
pub open spec fn is_white(c: char) -> bool {
    ||| '\u{9}' <= c <= '\u{d}'
    ||| c == '\u{20}'
    ||| c == '\u{85}'
    ||| c == '\u{a0}'
    ||| c == '\u{1680}'
    ||| '\u{2000}' <= c <= '\u{200a}'
    ||| c == '\u{2028}'
    ||| c == '\u{2029}'
    ||| c == '\u{202f}'
    ||| c == '\u{205f}'
    ||| c == '\u{3000}'
}

/// Whether a character has the Unicode property White_Space.
pub fn is_whitespace(c: char) -> (b: bool)
    ensures
        b == is_white(c),
        b == {
            let n = c as u32;
            9 <= n <= 13 || n == 32 || n == 0x85 || n == 0xA0 || n == 0x1680 || 0x2000 <= n
                <= 0x200A || n == 0x2028 || n == 0x2029 || n == 0x202F || n == 0x205F || n == 0x3000
        },
{
    ('\u{9}' <= c && c <= '\u{d}') || c == '\u{20}' || c == '\u{85}' || c == '\u{a0}' || c
        == '\u{1680}' || ('\u{2000}' <= c && c <= '\u{200a}') || c == '\u{2028}' || c == '\u{2029}'
        || c == '\u{202f}' || c == '\u{205f}' || c == '\u{3000}'
}

/// The number of white characters that a text begins with.
pub open spec fn white_run(s: Seq<char>) -> nat
    decreases s.len(),
{
    if s.len() == 0 || !is_white(s[0]) {
        0
    } else {
        1 + white_run(s.skip(1))
    }
}

/// The number of characters before the first white one.
pub open spec fn word_run(s: Seq<char>) -> nat
    decreases s.len(),
{
    if s.len() == 0 || is_white(s[0]) {
        0
    } else {
        1 + word_run(s.skip(1))
    }
}

/// The number of white characters that a text ends with.
pub open spec fn white_tail(s: Seq<char>) -> nat
    decreases s.len(),
{
    if s.len() == 0 || !is_white(s.last()) {
        0
    } else {
        1 + white_tail(s.drop_last())
    }
}

/// A text without the white characters at its beginning.
pub open spec fn trimmed_start(s: Seq<char>) -> Seq<char> {
    s.skip(white_run(s) as int)
}

/// A text without the white characters at both ends.
pub open spec fn trimmed(s: Seq<char>) -> Seq<char> {
    let t = trimmed_start(s);
    t.take(t.len() - white_tail(t))
}

/// The words of a text: its maximal parts without white characters.
pub open spec fn words(s: Seq<char>) -> Seq<Seq<char>>
    decreases s.len(),
{
    let t = trimmed_start(s);
    if t.len() == 0 {
        Seq::empty()
    } else {
        proof {
            lemma_white_run_bound(s);
            lemma_word_run_bound(t);
        }
        seq![t.take(word_run(t) as int)] + words(t.skip(word_run(t) as int))
    }
}

/// The position of the first `c`, or the length where there is none.
pub open spec fn find(s: Seq<char>, c: char) -> nat
    decreases s.len(),
{
    if s.len() == 0 || s[0] == c {
        0
    } else {
        1 + find(s.skip(1), c)
    }
}

/// Whether `c` occurs.
pub open spec fn has(s: Seq<char>, c: char) -> bool {
    find(s, c) < s.len()
}

/// The part before the first `c`, all of the text where there is none.
pub open spec fn before(s: Seq<char>, c: char) -> Seq<char> {
    s.take(find(s, c) as int)
}

/// The part after the first `c`, empty where there is none.
pub open spec fn after(s: Seq<char>, c: char) -> Seq<char> {
    if has(s, c) {
        s.skip(find(s, c) as int + 1)
    } else {
        Seq::empty()
    }
}

/// The parts of a text between the occurrences of `c`. There is one more of them
/// than there are occurrences.
pub open spec fn parts(s: Seq<char>, c: char) -> Seq<Seq<char>>
    decreases s.len(),
{
    if has(s, c) {
        seq![before(s, c)] + parts(after(s, c), c)
    } else {
        seq![s]
    }
}

/// The position of the last `c`, none where it does not occur.
pub open spec fn find_last(s: Seq<char>, c: char) -> Option<int>
    decreases s.len(),
{
    if s.len() == 0 {
        None
    } else if s.last() == c {
        Some(s.len() - 1)
    } else {
        find_last(s.drop_last(), c)
    }
}

/// Whether a text occurs in another one at a position.
pub open spec fn stands_at(s: Seq<char>, part: Seq<char>, at: int) -> bool {
    0 <= at && at + part.len() <= s.len() && s.subrange(at, at + part.len()) == part
}

/// Whether a text occurs in another one.
pub open spec fn occurs(s: Seq<char>, part: Seq<char>) -> bool {
    exists|at: int| #[trigger] stands_at(s, part, at)
}

/// A line without the carriage return that it may end with.
pub open spec fn without_return(line: Seq<char>) -> Seq<char> {
    if line.len() > 0 && line.last() == '\r' {
        line.drop_last()
    } else {
        line
    }
}

/// The lines of a text. A line ends with a line feed or with a carriage return
/// and a line feed; the last line may end with the text.
pub open spec fn lines(s: Seq<char>) -> Seq<Seq<char>>
    decreases s.len(),
{
    if s.len() == 0 {
        Seq::empty()
    } else if has(s, '\n') {
        seq![without_return(before(s, '\n'))] + lines(after(s, '\n'))
    } else {
        seq![s]
    }
}

/// Whether a text begins with another one.
pub open spec fn starts(s: Seq<char>, prefix: Seq<char>) -> bool {
    prefix.len() <= s.len() && s.take(prefix.len() as int) == prefix
}

/// Whether a character is an ASCII digit.
pub open spec fn is_digit(c: char) -> bool {
    '0' <= c <= '9'
}

/// Whether a text consists of ASCII digits, at least one.
pub open spec fn all_digits(s: Seq<char>) -> bool {
    s.len() > 0 && forall|i: int| 0 <= i < s.len() ==> is_digit(#[trigger] s[i])
}

/// The number that a text of ASCII digits writes down.
pub open spec fn decimal(s: Seq<char>) -> nat
    decreases s.len(),
{
    if s.len() == 0 {
        0
    } else {
        10 * decimal(s.drop_last()) + (s.last() as nat - '0' as nat) as nat
    }
}

/// The unsigned 64-bit number that a text writes down: digits, and a plus sign
/// before them if there is one.
pub open spec fn u64_of(s: Seq<char>) -> Option<u64> {
    let digits = if s.len() > 0 && s[0] == '+' {
        s.skip(1)
    } else {
        s
    };
    if all_digits(digits) && decimal(digits) <= u64::MAX {
        Some(decimal(digits) as u64)
    } else {
        None
    }
}

/// The signed 64-bit number that a text writes down: digits, and a sign before
/// them if there is one.
pub open spec fn i64_of(s: Seq<char>) -> Option<i64> {
    let negative = s.len() > 0 && s[0] == '-';
    let digits = if negative || (s.len() > 0 && s[0] == '+') {
        s.skip(1)
    } else {
        s
    };
    if !all_digits(digits) {
        None
    } else if negative {
        if -decimal(digits) >= i64::MIN {
            Some((-decimal(digits)) as i64)
        } else {
            None
        }
    } else if decimal(digits) <= i64::MAX {
        Some(decimal(digits) as i64)
    } else {
        None
    }
}

/// The ASCII lower case of a character, the character itself where it is not an
/// ASCII upper case letter.
pub open spec fn lower(c: char) -> char {
    if 'A' <= c <= 'Z' {
        (c as u32 + 32) as char
    } else {
        c
    }
}

/// Whether two texts are equal but for the case of ASCII letters.
pub open spec fn equal_ignoring_case(a: Seq<char>, b: Seq<char>) -> bool {
    a.len() == b.len() && forall|i: int| 0 <= i < a.len() ==> lower(#[trigger] a[i]) == lower(b[i])
}

// --- facts ---

/// The white run lies within the text and ends before a character that is not white.
pub proof fn lemma_white_run_bound(s: Seq<char>)
    ensures
        white_run(s) <= s.len(),
        forall|i: int| 0 <= i < white_run(s) ==> is_white(#[trigger] s[i]),
        white_run(s) < s.len() ==> !is_white(s[white_run(s) as int]),
    decreases s.len(),
{
    if s.len() == 0 || !is_white(s[0]) {
    } else {
        lemma_white_run_bound(s.skip(1));
        assert forall|i: int| 0 <= i < white_run(s) implies is_white(#[trigger] s[i]) by {
            if i > 0 {
                assert(s.skip(1)[i - 1] == s[i]);
            }
        }
    }
}

/// The word run lies within the text, and is not empty where a word begins.
pub proof fn lemma_word_run_bound(s: Seq<char>)
    ensures
        word_run(s) <= s.len(),
        s.len() > 0 && !is_white(s[0]) ==> word_run(s) > 0,
    decreases s.len(),
{
    if s.len() == 0 || is_white(s[0]) {
    } else {
        lemma_word_run_bound(s.skip(1));
    }
}

proof fn lemma_white_tail_bound(s: Seq<char>)
    ensures
        white_tail(s) <= s.len(),
    decreases s.len(),
{
    if s.len() == 0 || !is_white(s.last()) {
    } else {
        lemma_white_tail_bound(s.drop_last());
    }
}

/// The first occurrence lies within the text or is its length, and nothing
/// before it is the character.
pub proof fn lemma_find(s: Seq<char>, c: char)
    ensures
        find(s, c) <= s.len(),
        find(s, c) < s.len() ==> s[find(s, c) as int] == c,
        forall|i: int| 0 <= i < find(s, c) ==> #[trigger] s[i] != c,
    decreases s.len(),
{
    if s.len() == 0 || s[0] == c {
    } else {
        lemma_find(s.skip(1), c);
        assert forall|i: int| 0 <= i < find(s, c) implies #[trigger] s[i] != c by {
            if i > 0 {
                assert(s.skip(1)[i - 1] == s[i]);
            }
        }
    }
}

// --- conversions ---

/// The characters of a string.
pub fn chars_of(s: &str) -> (chars: Vec<char>)
    ensures
        chars@ == s@,
{
    let mut chars: Vec<char> = Vec::new();
    for c in it: s.chars()
        invariant
            it.seq() == s@,
            chars@ == s@.take(it.index() as int),
    {
        chars.push(c);
        assert(s@.take(it.index() + 1) =~= s@.take(it.index() as int).push(c));
    }
    assert(s@.take(s@.len() as int) =~= s@);
    chars
}

/// The string of some characters.
pub fn string_of(chars: &[char]) -> (s: String)
    ensures
        s@ == chars@,
{
    let mut s = String::new();
    let mut i: usize = 0;
    while i < chars.len()
        invariant
            i <= chars@.len(),
            s@ == chars@.take(i as int),
        decreases chars@.len() - i,
    {
        s.push(chars[i]);
        i += 1;
        assert(chars@.take(i as int) =~= chars@.take(i - 1).push(chars@[i - 1]));
    }
    assert(chars@.take(chars@.len() as int) =~= chars@);
    s
}

/// The characters from `from` to before `to`.
pub fn part(chars: &[char], from: usize, to: usize) -> (result: Vec<char>)
    requires
        from <= to <= chars@.len(),
    ensures
        result@ == chars@.subrange(from as int, to as int),
{
    let mut result: Vec<char> = Vec::new();
    let mut i: usize = from;
    while i < to
        invariant
            from <= i <= to <= chars@.len(),
            result@ == chars@.subrange(from as int, i as int),
        decreases to - i,
    {
        result.push(chars[i]);
        i += 1;
        assert(chars@.subrange(from as int, i as int) =~= chars@.subrange(
            from as int,
            i - 1,
        ).push(chars@[i - 1]));
    }
    result
}

/// Whether two texts are equal.
pub fn same(a: &[char], b: &[char]) -> (r: bool)
    ensures
        r == (a@ == b@),
{
    if a.len() != b.len() {
        return false;
    }
    let mut i: usize = 0;
    while i < a.len()
        invariant
            i <= a@.len(),
            a@.len() == b@.len(),
            forall|j: int| 0 <= j < i ==> #[trigger] a@[j] == b@[j],
        decreases a@.len() - i,
    {
        if a[i] != b[i] {
            return false;
        }
        i += 1;
    }
    assert(a@ =~= b@);
    true
}

/// Whether two strings are equal.
pub fn same_str(a: &str, b: &str) -> (r: bool)
    ensures
        r == (a@ == b@),
{
    let a = chars_of(a);
    let b = chars_of(b);
    same(&a, &b)
}

/// Whether a text begins with another one.
pub fn starts_with(s: &[char], prefix: &[char]) -> (r: bool)
    ensures
        r == starts(s@, prefix@),
        r == (prefix@.len() <= s@.len() && forall|i: int|
            0 <= i < prefix@.len() ==> s@[i] == #[trigger] prefix@[i]),
{
    if prefix.len() > s.len() {
        return false;
    }
    let head = part(s, 0, prefix.len());
    assert(s@.subrange(0, prefix@.len() as int) =~= s@.take(prefix@.len() as int));
    proof {
        if head@ == prefix@ {
            assert forall|i: int| 0 <= i < prefix@.len() implies s@[i] == #[trigger] prefix@[i] by {
                assert(head@[i] == s@[i]);
            }
        }
        if forall|i: int| 0 <= i < prefix@.len() ==> s@[i] == #[trigger] prefix@[i] {
            assert(head@ =~= prefix@);
        }
    }
    same(&head, prefix)
}

/// The ASCII lower case of a character.
pub fn to_lower(c: char) -> (r: char)
    ensures
        r == lower(c),
        65 <= c as u32 <= 90 ==> r as u32 == c as u32 + 32,
        !(65 <= c as u32 <= 90) ==> r == c,
{
    if 'A' <= c && c <= 'Z' {
        ((c as u8) + 32) as char
    } else {
        c
    }
}

/// Whether two texts are equal but for the case of ASCII letters.
pub fn same_ignoring_case(a: &[char], b: &[char]) -> (r: bool)
    ensures
        r == equal_ignoring_case(a@, b@),
{
    if a.len() != b.len() {
        return false;
    }
    let mut i: usize = 0;
    while i < a.len()
        invariant
            i <= a@.len(),
            a@.len() == b@.len(),
            forall|j: int| 0 <= j < i ==> lower(#[trigger] a@[j]) == lower(b@[j]),
        decreases a@.len() - i,
    {
        if to_lower(a[i]) != to_lower(b[i]) {
            return false;
        }
        i += 1;
    }
    true
}

/// The number of white characters that a text begins with.
fn white_prefix(s: &[char]) -> (n: usize)
    ensures
        n == white_run(s@),
        n <= s@.len(),
{
    let mut n: usize = 0;
    assert(s@.skip(0) =~= s@);
    while n < s.len() && is_whitespace(s[n])
        invariant
            n <= s@.len(),
            n + white_run(s@.skip(n as int)) == white_run(s@),
        decreases s@.len() - n,
    {
        assert(s@.skip(n as int).skip(1) =~= s@.skip(n + 1));
        n += 1;
    }
    n
}

/// A text without the white characters at both ends.
pub fn trim(s: &[char]) -> (result: Vec<char>)
    ensures
        result@ == trimmed(s@),
{
    let from: usize = white_prefix(s);
    let mut to: usize = s.len();
    let ghost t = s@.skip(from as int);
    assert(t.take(t.len() as int) =~= t);
    while to > from && is_whitespace(s[to - 1])
        invariant
            from <= to <= s@.len(),
            t == s@.skip(from as int),
            white_tail(t) == (s@.len() - to) + white_tail(t.take(to - from)),
        decreases to,
    {
        assert(t.take(to - from).drop_last() =~= t.take(to - from - 1));
        to -= 1;
    }
    assert(t.take(to - from) =~= s@.subrange(from as int, to as int));
    part(s, from, to)
}

/// The words of a text.
pub fn split_words(s: &[char]) -> (result: Vec<Vec<char>>)
    ensures
        result@.len() == words(s@).len(),
        forall|i: int| 0 <= i < result@.len() ==> (#[trigger] result@[i])@ == words(s@)[i],
{
    let mut result: Vec<Vec<char>> = Vec::new();
    let mut at: usize = 0;
    assert(s@.skip(0) =~= s@);
    while at < s.len()
        invariant
            at <= s@.len(),
            words(s@).len() == result@.len() + words(s@.skip(at as int)).len(),
            forall|i: int| 0 <= i < result@.len() ==> (#[trigger] result@[i])@ == words(s@)[i],
            forall|i: int|
                0 <= i < words(s@.skip(at as int)).len() ==> #[trigger] words(
                    s@.skip(at as int),
                )[i] == words(s@)[i + result@.len()],
        decreases s@.len() - at,
    {
        let ghost rest = s@.skip(at as int);
        proof {
            lemma_white_run_bound(rest);
        }
        let mut from: usize = at;
        while from < s.len() && is_whitespace(s[from])
            invariant
                at <= from <= s@.len(),
                rest == s@.skip(at as int),
                (from - at) + white_run(s@.skip(from as int)) == white_run(rest),
            decreases s@.len() - from,
        {
            assert(s@.skip(from as int).skip(1) =~= s@.skip(from + 1));
            from += 1;
        }
        let ghost t = s@.skip(from as int);
        assert(rest.skip(white_run(rest) as int) =~= t);
        if from == s.len() {
            assert(words(rest) =~= Seq::<Seq<char>>::empty());
            assert(s@.skip(s@.len() as int) =~= Seq::<char>::empty());
            return result;
        }
        proof {
            lemma_word_run_bound(t);
        }
        let mut to: usize = from;
        while to < s.len() && !is_whitespace(s[to])
            invariant
                from <= to <= s@.len(),
                t == s@.skip(from as int),
                (to - from) + word_run(s@.skip(to as int)) == word_run(t),
            decreases s@.len() - to,
        {
            assert(s@.skip(to as int).skip(1) =~= s@.skip(to + 1));
            to += 1;
        }
        let ghost old_result = result@;
        assert(t.take(word_run(t) as int) =~= s@.subrange(from as int, to as int));
        assert(t.skip(word_run(t) as int) =~= s@.skip(to as int));
        assert(words(rest) == seq![t.take(word_run(t) as int)] + words(s@.skip(to as int)));
        result.push(part(s, from, to));
        assert(words(rest)[0] == words(s@)[0int + old_result.len()]);
        assert forall|i: int| 0 <= i < words(s@.skip(to as int)).len() implies #[trigger] words(
            s@.skip(to as int),
        )[i] == words(s@)[i + result@.len()] by {
            assert(words(rest)[i + 1] == words(s@.skip(to as int))[i]);
            assert(words(rest)[i + 1] == words(s@)[i + 1 + old_result.len()]);
        }
        at = to;
    }
    assert(s@.skip(s@.len() as int) =~= Seq::<char>::empty());
    assert(words(Seq::<char>::empty()).len() == 0);
    result
}

/// The position of the first `c` at or after `from`, or the length.
pub fn position(s: &[char], c: char, from: usize) -> (at: usize)
    requires
        from <= s@.len(),
    ensures
        from <= at <= s@.len(),
        at == from + find(s@.skip(from as int), c),
{
    let mut at: usize = from;
    while at < s.len() && s[at] != c
        invariant
            from <= at <= s@.len(),
            (at - from) + find(s@.skip(at as int), c) == find(s@.skip(from as int), c),
        decreases s@.len() - at,
    {
        assert(s@.skip(at as int).skip(1) =~= s@.skip(at + 1));
        at += 1;
    }
    at
}

/// The position of the last `c`, none where it does not occur.
pub fn last_position(s: &[char], c: char) -> (at: Option<usize>)
    ensures
        match at {
            Some(i) => find_last(s@, c) == Some(i as int) && i < s@.len(),
            None => find_last(s@, c) is None,
        },
{
    let mut i: usize = s.len();
    assert(s@.take(s@.len() as int) =~= s@);
    while i > 0
        invariant
            i <= s@.len(),
            find_last(s@.take(i as int), c) == find_last(s@, c),
        decreases i,
    {
        assert(s@.take(i as int).drop_last() =~= s@.take(i - 1));
        if s[i - 1] == c {
            return Some(i - 1);
        }
        i -= 1;
    }
    None
}

/// Whether a text occurs in another one.
pub fn contains(s: &[char], needle: &[char]) -> (b: bool)
    ensures
        b == occurs(s@, needle@),
{
    let n: usize = needle.len();
    let len: usize = s.len();
    if n > len {
        return false;
    }
    let last: usize = len - n;
    let mut i: usize = 0;
    while i <= last
        invariant
            i <= last + 1,
            n == needle@.len(),
            last + n == len == s@.len(),
            forall|at: int| 0 <= at < i ==> !#[trigger] stands_at(s@, needle@, at),
        decreases last + 1 - i,
    {
        let here = part(s, i, i + n);
        if same(&here, needle) {
            assert(stands_at(s@, needle@, i as int));
            return true;
        }
        if i == last {
            assert forall|at: int| !#[trigger] stands_at(s@, needle@, at) by {}
            return false;
        }
        i += 1;
    }
    false
}

/// The parts of a text between the occurrences of `c`.
pub fn split(s: &[char], c: char) -> (result: Vec<Vec<char>>)
    ensures
        result@.len() == parts(s@, c).len(),
        forall|i: int| 0 <= i < result@.len() ==> (#[trigger] result@[i])@ == parts(s@, c)[i],
{
    let mut result: Vec<Vec<char>> = Vec::new();
    let mut at: usize = 0;
    assert(s@.skip(0) =~= s@);
    loop
        invariant
            at <= s@.len(),
            parts(s@, c).len() == result@.len() + parts(s@.skip(at as int), c).len(),
            forall|i: int| 0 <= i < result@.len() ==> (#[trigger] result@[i])@ == parts(s@, c)[i],
            forall|i: int|
                0 <= i < parts(s@.skip(at as int), c).len() ==> #[trigger] parts(
                    s@.skip(at as int),
                    c,
                )[i] == parts(s@, c)[i + result@.len()],
        decreases s@.len() - at,
    {
        let ghost rest = s@.skip(at as int);
        let ghost old_result = result@;
        let to: usize = position(s, c, at);
        assert(rest.take(find(rest, c) as int) =~= s@.subrange(at as int, to as int));
        result.push(part(s, at, to));
        assert(parts(rest, c)[0] == s@.subrange(at as int, to as int)) by {
            if to == s@.len() {
                assert(rest =~= s@.subrange(at as int, to as int));
            }
        }
        assert(parts(rest, c)[0] == parts(s@, c)[0int + old_result.len()]);
        if to == s.len() {
            return result;
        }
        assert(after(rest, c) =~= s@.skip(to + 1));
        assert forall|i: int| 0 <= i < parts(s@.skip(to + 1), c).len() implies #[trigger] parts(
            s@.skip(to + 1),
            c,
        )[i] == parts(s@, c)[i + result@.len()] by {
            assert(parts(rest, c)[i + 1] == parts(s@.skip(to + 1), c)[i]);
            assert(parts(rest, c)[i + 1] == parts(s@, c)[i + 1 + old_result.len()]);
        }
        at = to + 1;
    }
}

/// The lines of a text.
pub fn split_lines(s: &[char]) -> (result: Vec<Vec<char>>)
    ensures
        result@.len() == lines(s@).len(),
        forall|i: int| 0 <= i < result@.len() ==> (#[trigger] result@[i])@ == lines(s@)[i],
{
    let mut result: Vec<Vec<char>> = Vec::new();
    let mut at: usize = 0;
    assert(s@.skip(0) =~= s@);
    while at < s.len()
        invariant
            at <= s@.len(),
            lines(s@).len() == result@.len() + lines(s@.skip(at as int)).len(),
            forall|i: int| 0 <= i < result@.len() ==> (#[trigger] result@[i])@ == lines(s@)[i],
            forall|i: int|
                0 <= i < lines(s@.skip(at as int)).len() ==> #[trigger] lines(
                    s@.skip(at as int),
                )[i] == lines(s@)[i + result@.len()],
        decreases s@.len() - at,
    {
        let ghost rest = s@.skip(at as int);
        let ghost old_result = result@;
        let to: usize = position(s, '\n', at);
        if to == s.len() {
            assert(rest =~= s@.subrange(at as int, to as int));
            assert(lines(rest)[0] == rest);
            assert(lines(rest)[0] == lines(s@)[0int + old_result.len()]);
            result.push(part(s, at, to));
            assert(s@.skip(s@.len() as int) =~= Seq::<char>::empty());
            return result;
        }
        assert(before(rest, '\n') =~= s@.subrange(at as int, to as int));
        let end: usize = if to > at && s[to - 1] == '\r' {
            to - 1
        } else {
            to
        };
        assert(without_return(before(rest, '\n')) =~= s@.subrange(at as int, end as int));
        assert(after(rest, '\n') =~= s@.skip(to + 1));
        assert(lines(rest)[0] == lines(s@)[0int + old_result.len()]);
        result.push(part(s, at, end));
        assert forall|i: int| 0 <= i < lines(s@.skip(to + 1)).len() implies #[trigger] lines(
            s@.skip(to + 1),
        )[i] == lines(s@)[i + result@.len()] by {
            assert(lines(rest)[i + 1] == lines(s@.skip(to + 1))[i]);
            assert(lines(rest)[i + 1] == lines(s@)[i + 1 + old_result.len()]);
        }
        at = to + 1;
    }
    assert(s@.skip(s@.len() as int) =~= Seq::<char>::empty());
    result
}

/// The value of the digits from `from` on, where there is at least one, all of
/// them are digits and the value is at most `limit`.
fn digits_from(s: &[char], from: usize, limit: u64) -> (value: Option<u64>)
    requires
        from <= s@.len(),
    ensures
        value == (if all_digits(s@.skip(from as int)) && decimal(s@.skip(from as int)) <= limit {
            Some(decimal(s@.skip(from as int)) as u64)
        } else {
            None
        }),
{
    let ghost d = s@.skip(from as int);
    if from == s.len() {
        return None;
    }
    let mut value: u64 = 0;
    let mut over: bool = false;
    let mut i: usize = from;
    assert(d.take(0) =~= Seq::<char>::empty());
    while i < s.len()
        invariant
            from <= i <= s@.len(),
            d == s@.skip(from as int),
            forall|j: int| 0 <= j < i - from ==> is_digit(#[trigger] d[j]),
            !over ==> value == decimal(d.take(i - from)) && value <= limit,
            over ==> decimal(d.take(i - from)) > limit,
        decreases s@.len() - i,
    {
        let c: char = s[i];
        if !('0' <= c && c <= '9') {
            assert(!is_digit(d[i - from]));
            return None;
        }
        let ghost head = d.take(i - from);
        let ghost next = d.take(i - from + 1);
        assert(next.drop_last() =~= head);
        assert(next.last() == c);
        let digit: u64 = (c as u32 - '0' as u32) as u64;
        if !over {
            let wide: u128 = value as u128 * 10 + digit as u128;
            if wide > limit as u128 {
                over = true;
            } else {
                value = wide as u64;
            }
        }
        i += 1;
    }
    assert(d.take(d.len() as int) =~= d);
    if over {
        None
    } else {
        Some(value)
    }
}

/// The unsigned 64-bit number that a text writes down.
pub fn parse_u64(s: &[char]) -> (value: Option<u64>)
    ensures
        value == u64_of(s@),
{
    assert(s@.skip(0) =~= s@);
    if s.len() > 0 && s[0] == '+' {
        digits_from(s, 1, u64::MAX)
    } else {
        digits_from(s, 0, u64::MAX)
    }
}

/// The signed 64-bit number that a text writes down.
pub fn parse_i64(s: &[char]) -> (value: Option<i64>)
    ensures
        value == i64_of(s@),
{
    assert(s@.skip(0) =~= s@);
    if s.len() > 0 && s[0] == '-' {
        match digits_from(s, 1, 0x8000_0000_0000_0000) {
            None => None,
            Some(magnitude) => {
                if magnitude == 0x8000_0000_0000_0000 {
                    Some(i64::MIN)
                } else {
                    Some(-(magnitude as i64))
                }
            },
        }
    } else {
        let from: usize = if s.len() > 0 && s[0] == '+' {
            1
        } else {
            0
        };
        match digits_from(s, from, i64::MAX as u64) {
            None => None,
            Some(magnitude) => Some(magnitude as i64),
        }
    }
}

/// What is left of a text after trimming is its core: with white characters alone
/// around it, and none at its own ends.
pub proof fn law_trimming_leaves_the_core(left: Seq<char>, core: Seq<char>, right: Seq<char>)
    requires
        forall|i: int| 0 <= i < left.len() ==> is_white(#[trigger] left[i]),
        forall|i: int| 0 <= i < right.len() ==> is_white(#[trigger] right[i]),
        core.len() > 0 ==> !is_white(core[0]) && !is_white(core.last()),
    ensures
        trimmed(left + core + right) == core,
{
    let s = left + core + right;
    lemma_white_run_bound(s);
    let n = white_run(s) as int;
    if core.len() == 0 {
        if n < s.len() {
            if n < left.len() {
                assert(is_white(left[n]));
            } else {
                assert(is_white(right[n - left.len()]));
            }
        }
        assert(trimmed(s) =~= core);
    } else {
        assert(s[left.len() as int] == core[0]);
        if n < left.len() {
            assert(is_white(left[n]));
        }
        assert(n == left.len());
        let t = trimmed_start(s);
        assert(t =~= core + right);
        lemma_white_tail_is(core, right);
        assert(trimmed(s) =~= core);
    }
}

proof fn lemma_white_tail_is(core: Seq<char>, right: Seq<char>)
    requires
        forall|i: int| 0 <= i < right.len() ==> is_white(#[trigger] right[i]),
        core.len() > 0,
        !is_white(core.last()),
    ensures
        white_tail(core + right) == right.len(),
    decreases right.len(),
{
    let t = core + right;
    if right.len() > 0 {
        assert(t.last() == right.last());
        assert(is_white(right[right.len() - 1]));
        assert(t.drop_last() =~= core + right.drop_last());
        lemma_white_tail_is(core, right.drop_last());
    } else {
        assert(t =~= core);
    }
}

/// The first occurrence of a character parts a text in two: what stands before it,
/// where it does not occur, and everything behind it.
pub proof fn law_first_occurrence_parts_a_text(head: Seq<char>, c: char, rest: Seq<char>)
    requires
        !head.contains(c),
    ensures
        find(head.push(c) + rest, c) == head.len(),
        has(head.push(c) + rest, c),
        before(head.push(c) + rest, c) == head,
        after(head.push(c) + rest, c) == rest,
        find(head, c) == head.len(),
        before(head, c) == head,
        after(head, c) == Seq::<char>::empty(),
{
    let s = head.push(c) + rest;
    lemma_find(s, c);
    lemma_find(head, c);
    assert(s[head.len() as int] == c);
    let n = find(s, c) as int;
    if n < head.len() {
        assert(head[n] == c);
    }
    if find(head, c) < head.len() {
        assert(head[find(head, c) as int] == c);
    }
    assert(before(s, c) =~= head);
    assert(after(s, c) =~= rest);
    assert(before(head, c) =~= head);
}

/// Splitting takes a text apart at every occurrence of a character: a part without
/// it is followed by the parts of what stands behind it, and a text without it is its
/// own only part.
pub proof fn law_splitting_takes_a_text_apart(head: Seq<char>, c: char, rest: Seq<char>)
    requires
        !head.contains(c),
    ensures
        parts(head, c) == seq![head],
        parts(head.push(c) + rest, c) == seq![head] + parts(rest, c),
{
    law_first_occurrence_parts_a_text(head, c, rest);
}

/// No part of a text holds the character at which it was taken apart, and there is at
/// least one part.
pub proof fn law_parts_lack_the_separator(s: Seq<char>, c: char)
    ensures
        parts(s, c).len() >= 1,
        forall|i: int| 0 <= i < parts(s, c).len() ==> !(#[trigger] parts(s, c)[i]).contains(c),
    decreases s.len(),
{
    lemma_find(s, c);
    if has(s, c) {
        law_parts_lack_the_separator(after(s, c), c);
        assert(!before(s, c).contains(c));
        assert forall|i: int| 0 <= i < parts(s, c).len() implies !(#[trigger] parts(
            s,
            c,
        )[i]).contains(c) by {
            if i > 0 {
                assert(parts(s, c)[i] == parts(after(s, c), c)[i - 1]);
            }
        }
    }
}

/// The last occurrence of a character has none behind it.
pub proof fn law_last_occurrence_has_none_behind(head: Seq<char>, c: char, tail: Seq<char>)
    requires
        !tail.contains(c),
    ensures
        find_last(head.push(c) + tail, c) == Some(head.len() as int),
        find_last(tail, c) is None,
    decreases tail.len(),
{
    let s = head.push(c) + tail;
    if tail.len() > 0 {
        let t = tail.drop_last();
        assert forall|i: int| 0 <= i < t.len() implies #[trigger] t[i] != c by {
            assert(tail[i] != c);
        }
        law_last_occurrence_has_none_behind(head, c, t);
        assert(tail[tail.len() - 1] != c);
        assert(s.drop_last() =~= head.push(c) + t);
        assert(s.last() == tail.last());
    } else {
        assert(s =~= head.push(c));
    }
}

/// A line ends with a line feed, and a carriage return before that is no part of it;
/// the last line may lack its end.
pub proof fn law_line_ends_at_a_line_feed(line: Seq<char>, rest: Seq<char>)
    requires
        !line.contains('\n'),
    ensures
        (line.len() == 0 || line.last() != '\r') ==> lines(line.push('\n') + rest) == seq![line]
            + lines(rest),
        lines(line.push('\r').push('\n') + rest) == seq![line] + lines(rest),
        line.len() > 0 ==> lines(line) == seq![line],
        lines(Seq::<char>::empty()) == Seq::<Seq<char>>::empty(),
{
    law_first_occurrence_parts_a_text(line, '\n', rest);
    let cr = line.push('\r');
    assert(!cr.contains('\n')) by {
        assert forall|i: int| 0 <= i < cr.len() implies #[trigger] cr[i] != '\n' by {
            if i < line.len() {
                assert(line[i] != '\n');
            }
        }
    }
    law_first_occurrence_parts_a_text(cr, '\n', rest);
    assert(cr.drop_last() =~= line);
}

/// A word ends where white space begins: the words of a text that begins with one are
/// that word and the words of the rest, and white space at the beginning is no word.
pub proof fn law_words_end_at_white_space(
    white: Seq<char>,
    word: Seq<char>,
    gap: char,
    rest: Seq<char>,
)
    requires
        forall|i: int| 0 <= i < white.len() ==> is_white(#[trigger] white[i]),
        forall|i: int| 0 <= i < word.len() ==> !is_white(#[trigger] word[i]),
        word.len() > 0,
        is_white(gap),
    ensures
        words(white) == Seq::<Seq<char>>::empty(),
        words(white + word) == seq![word],
        words(white + word.push(gap) + rest) == seq![word] + words(rest),
{
    lemma_white_run_is(white, Seq::empty());
    assert(white + Seq::<char>::empty() =~= white);
    lemma_white_run_is(white, word);
    assert((white + word).skip(white.len() as int) =~= word);
    lemma_word_run_is(word, Seq::empty());
    assert(word + Seq::<char>::empty() =~= word);
    assert(word.take(word.len() as int) =~= word);
    assert(word.skip(word.len() as int) =~= Seq::<char>::empty());
    assert(words(Seq::<char>::empty()) =~= Seq::<Seq<char>>::empty()) by {
        assert(trimmed_start(Seq::<char>::empty()) =~= Seq::<char>::empty());
    }
    assert(words(white + word) =~= seq![word]);
    let tail = word.push(gap) + rest;
    let s = white + word.push(gap) + rest;
    assert(s =~= white + tail);
    lemma_white_run_is(white, tail);
    assert(s.skip(white.len() as int) =~= tail);
    assert(tail =~= word + (seq![gap] + rest));
    lemma_word_run_is(word, seq![gap] + rest);
    assert(tail.take(word.len() as int) =~= word);
    let left = seq![gap] + rest;
    assert(tail.skip(word.len() as int) =~= left);
    assert(left.skip(1) =~= rest);
    lemma_white_run_bound(rest);
    assert(white_run(left) == 1 + white_run(rest));
    assert(trimmed_start(left) =~= trimmed_start(rest));
    assert(words(left) == words(rest));
    assert(words(s) =~= seq![word] + words(left));
}

proof fn lemma_white_run_is(white: Seq<char>, rest: Seq<char>)
    requires
        forall|i: int| 0 <= i < white.len() ==> is_white(#[trigger] white[i]),
        rest.len() > 0 ==> !is_white(rest[0]),
    ensures
        white_run(white + rest) == white.len(),
    decreases white.len(),
{
    let s = white + rest;
    if white.len() > 0 {
        assert(is_white(white[0]));
        assert(s.skip(1) =~= white.skip(1) + rest);
        assert forall|i: int| 0 <= i < white.skip(1).len() implies is_white(
            #[trigger] white.skip(1)[i],
        ) by {
            assert(is_white(white[i + 1]));
        }
        lemma_white_run_is(white.skip(1), rest);
    } else {
        assert(s =~= rest);
    }
}

proof fn lemma_word_run_is(word: Seq<char>, rest: Seq<char>)
    requires
        forall|i: int| 0 <= i < word.len() ==> !is_white(#[trigger] word[i]),
        rest.len() > 0 ==> is_white(rest[0]),
    ensures
        word_run(word + rest) == word.len(),
    decreases word.len(),
{
    let s = word + rest;
    if word.len() > 0 {
        assert(!is_white(word[0]));
        assert(s.skip(1) =~= word.skip(1) + rest);
        assert forall|i: int| 0 <= i < word.skip(1).len() implies !is_white(
            #[trigger] word.skip(1)[i],
        ) by {
            assert(!is_white(word[i + 1]));
        }
        lemma_word_run_is(word.skip(1), rest);
    } else {
        assert(s =~= rest);
    }
}

/// One more digit behind a number makes it ten times as large, and adds the digit.
pub proof fn law_digit_shifts_the_number(digits: Seq<char>, digit: char)
    requires
        forall|i: int| 0 <= i < digits.len() ==> '0' <= #[trigger] digits[i] <= '9',
        '0' <= digit <= '9',
    ensures
        decimal(Seq::<char>::empty()) == 0,
        decimal(digits.push(digit)) == 10 * decimal(digits) + (digit as u32 - 48),
        all_digits(digits.push(digit)),
{
    let s = digits.push(digit);
    assert(s.drop_last() =~= digits);
    assert forall|i: int| 0 <= i < s.len() implies is_digit(#[trigger] s[i]) by {
        if i < digits.len() {
            assert('0' <= digits[i] <= '9');
        }
    }
}

/// A number is read with a plus sign or without, a signed one with a minus sign too,
/// as long as it fits.
pub proof fn law_sign_goes_before_the_digits(digits: Seq<char>)
    requires
        digits.len() > 0,
        forall|i: int| 0 <= i < digits.len() ==> '0' <= #[trigger] digits[i] <= '9',
    ensures
        u64_of(digits) == (if decimal(digits) < 0x1_0000_0000_0000_0000 {
            Some(decimal(digits) as u64)
        } else {
            None
        }),
        u64_of(seq!['+'] + digits) == u64_of(digits),
        u64_of(seq!['-'] + digits) is None,
        i64_of(digits) == (if decimal(digits) < 0x8000_0000_0000_0000 {
            Some(decimal(digits) as i64)
        } else {
            None
        }),
        i64_of(seq!['+'] + digits) == i64_of(digits),
        i64_of(seq!['-'] + digits) == (if decimal(digits) <= 0x8000_0000_0000_0000 {
            Some((-decimal(digits)) as i64)
        } else {
            None
        }),
{
    assert('0' <= digits[0] <= '9');
    assert((seq!['+'] + digits).skip(1) =~= digits);
    assert((seq!['-'] + digits).skip(1) =~= digits);
    assert forall|i: int| 0 <= i < digits.len() implies is_digit(#[trigger] digits[i]) by {
        assert('0' <= digits[i] <= '9');
    }
    let minus = seq!['-'] + digits;
    assert(minus[0] == '-' && !is_digit(minus[0]));
}

/// A text with any other character than digits behind its sign is no number, nor is
/// one without digits.
pub proof fn law_only_digits_make_a_number(s: Seq<char>, at: int)
    requires
        0 <= at < s.len(),
        !('0' <= s[at] <= '9'),
        at > 0 || (s[0] != '+' && s[0] != '-'),
    ensures
        u64_of(s) is None,
        i64_of(s) is None,
        u64_of(Seq::<char>::empty()) is None,
        i64_of(Seq::<char>::empty()) is None,
        u64_of(seq!['+']) is None,
        i64_of(seq!['+']) is None,
        i64_of(seq!['-']) is None,
{
    if at > 0 {
        assert(s.skip(1)[at - 1] == s[at]);
    }
    assert(!is_digit(s[at]));
}

/// Letters that differ in case alone are the same letter, and no other characters are.
pub proof fn law_case_is_all_that_is_ignored(a: Seq<char>, b: Seq<char>)
    ensures
        equal_ignoring_case(a, b) == (a.len() == b.len() && forall|i: int|
            0 <= i < a.len() ==> {
                let x = (#[trigger] a[i]) as u32;
                let y = b[i] as u32;
                x == y || (x + 32 == y && 65 <= x <= 90) || (y + 32 == x && 65 <= y <= 90)
            }),
{
    if a.len() == b.len() {
        assert forall|i: int| 0 <= i < a.len() implies (lower(#[trigger] a[i]) == lower(b[i])) == ({
            let x = a[i] as u32;
            let y = b[i] as u32;
            x == y || (x + 32 == y && 65 <= x <= 90) || (y + 32 == x && 65 <= y <= 90)
        }) by {
            lemma_same_letter(a[i], b[i]);
        }
    }
}

proof fn lemma_same_letter(x: char, y: char)
    ensures
        (lower(x) == lower(y)) == (x as u32 == y as u32 || (x as u32 + 32 == y as u32 && 65
            <= x as u32 <= 90) || (y as u32 + 32 == x as u32 && 65 <= y as u32 <= 90)),
{
}

/// One more part behind a text is one more part at the end.
pub proof fn law_part_is_added_at_the_end(s: Seq<char>, c: char, part: Seq<char>)
    requires
        !part.contains(c),
    ensures
        parts(s.push(c) + part, c) == parts(s, c).push(part),
    decreases s.len(),
{
    let longer = s.push(c) + part;
    lemma_find(s, c);
    if has(s, c) {
        let head = before(s, c);
        let rest = after(s, c);
        assert(!head.contains(c));
        assert(s =~= head.push(c) + rest);
        assert(longer =~= head.push(c) + (rest.push(c) + part));
        law_splitting_takes_a_text_apart(head, c, rest.push(c) + part);
        law_splitting_takes_a_text_apart(head, c, rest);
        law_part_is_added_at_the_end(rest, c, part);
        assert(parts(longer, c) =~= parts(s, c).push(part));
    } else {
        assert(!s.contains(c)) by {
            assert forall|i: int| 0 <= i < s.len() implies #[trigger] s[i] != c by {}
        }
        law_splitting_takes_a_text_apart(s, c, part);
        law_splitting_takes_a_text_apart(part, c, Seq::empty());
        assert(parts(longer, c) =~= parts(s, c).push(part));
    }
}

/// The last occurrence lies within the text.
pub proof fn lemma_find_last(s: Seq<char>, c: char)
    ensures
        find_last(s, c) matches Some(at) ==> 0 <= at < s.len() && s[at] == c,
    decreases s.len(),
{
    if s.len() > 0 && s.last() != c {
        lemma_find_last(s.drop_last(), c);
    }
}

/// A text occurs in another one exactly where that consists of something before it, the
/// text itself, and something behind it.
pub proof fn law_occurrence_stands_between(s: Seq<char>, part: Seq<char>)
    ensures
        occurs(s, part) <==> exists|a: Seq<char>, b: Seq<char>| s == #[trigger] (a + part + b),
{
    if occurs(s, part) {
        let at = choose|at: int| #[trigger] stands_at(s, part, at);
        let a = s.take(at);
        let b = s.skip(at + part.len());
        assert forall|i: int| 0 <= i < s.len() implies s[i] == #[trigger] (a + part + b)[i] by {
            if at <= i < at + part.len() {
                assert(s.subrange(at, at + part.len())[i - at] == s[i]);
            }
        }
        assert(s =~= a + part + b);
    }
    if exists|a: Seq<char>, b: Seq<char>| s == #[trigger] (a + part + b) {
        let (a, b) = choose|a: Seq<char>, b: Seq<char>| s == #[trigger] (a + part + b);
        let at = a.len() as int;
        assert(s.subrange(at, at + part.len()) =~= part);
        assert(stands_at(s, part, at));
    }
}

} // verus!
