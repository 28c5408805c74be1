//! Building, searching and comparing text, character by character.

use vstd::prelude::*;
use vstd::string::*;

verus! {

/// Whether two strings hold the same characters.
pub fn str_eq(a: &str, b: &str) -> (r: bool)
    ensures
        r == (a@ == b@),
{
    a.to_owned() == b.to_owned()
}

/// The characters of `text`, in order.
pub fn chars_of(text: &str) -> (r: Vec<char>)
    ensures
        r@ == text@,
{
    let mut out: Vec<char> = Vec::new();
    for c in it: text.chars()
        invariant
            out@ == it.seq().take(it.index() as int),
            it.seq() == text@,
    {
        out.push(c);
    }
    out
}

/// The characters of the text that `r` holds, on either side.
pub open spec fn result_view(r: Result<String, String>) -> Result<Seq<char>, Seq<char>> {
    match r {
        Ok(text) => Ok(text@),
        Err(text) => Err(text@),
    }
}

/// The characters of each string of `parts`.
pub open spec fn views(parts: Seq<String>) -> Seq<Seq<char>> {
    parts.map_values(|part: String| part@)
}

/// The concatenation of `parts`, with `separator` between neighbours.
pub open spec fn joined(parts: Seq<Seq<char>>, separator: Seq<char>) -> Seq<char>
    decreases parts.len(),
{
    if parts.len() == 0 {
        Seq::empty()
    } else if parts.len() == 1 {
        parts[0]
    } else {
        joined(parts.drop_last(), separator) + separator + parts.last()
    }
}

/// Joins `parts` with `separator` between neighbours.
pub fn join(parts: &Vec<String>, separator: &str) -> (r: String)
    ensures
        r@ == joined(views(parts@), separator@),
{
    let mut out = String::new();
    let mut i: usize = 0;
    while i < parts.len()
        invariant
            i <= parts.len(),
            out@ == joined(views(parts@).take(i as int), separator@),
        decreases parts.len() - i,
    {
        proof {
            let next = views(parts@).take(i + 1);
            assert(next.drop_last() =~= views(parts@).take(i as int));
            assert(next.last() == parts@[i as int]@);
        }
        if i > 0 {
            out.append(separator);
        }
        out.append(parts[i].as_str());
        assert(out@ == joined(views(parts@).take(i + 1), separator@));
        i += 1;
    }
    assert(views(parts@).take(parts.len() as int) =~= views(parts@));
    out
}

/// The character that stands for the decimal digit `d`.
pub open spec fn digit_char(d: nat) -> char {
    if d == 0 {
        '0'
    } else if d == 1 {
        '1'
    } else if d == 2 {
        '2'
    } else if d == 3 {
        '3'
    } else if d == 4 {
        '4'
    } else if d == 5 {
        '5'
    } else if d == 6 {
        '6'
    } else if d == 7 {
        '7'
    } else if d == 8 {
        '8'
    } else {
        '9'
    }
}

/// `n` in decimal notation, without leading zeros.
pub open spec fn decimal_text(n: nat) -> Seq<char>
    decreases n,
{
    if n < 10 {
        seq![digit_char(n)]
    } else {
        decimal_text(n / 10).push(digit_char(n % 10))
    }
}

fn digit_str(d: usize) -> (r: &'static str)
    requires
        d < 10,
    ensures
        r@ == seq![digit_char(d as nat)],
{
    proof {
        reveal_strlit("0");
        reveal_strlit("1");
        reveal_strlit("2");
        reveal_strlit("3");
        reveal_strlit("4");
        reveal_strlit("5");
        reveal_strlit("6");
        reveal_strlit("7");
        reveal_strlit("8");
        reveal_strlit("9");
    }
    match d {
        0 => "0",
        1 => "1",
        2 => "2",
        3 => "3",
        4 => "4",
        5 => "5",
        6 => "6",
        7 => "7",
        8 => "8",
        _ => "9",
    }
}

/// `n` in decimal notation.
pub fn decimal(n: usize) -> (r: String)
    ensures
        r@ == decimal_text(n as nat),
    decreases n,
{
    if n < 10 {
        digit_str(n).to_owned()
    } else {
        let mut out = decimal(n / 10);
        out.append(digit_str(n % 10));
        out
    }
}

/// Whether `pattern` stands in `text` at position `at`.
pub open spec fn occurs_at(text: Seq<char>, pattern: Seq<char>, at: int) -> bool {
    &&& 0 <= at
    &&& at + pattern.len() <= text.len()
    &&& text.subrange(at, at + pattern.len()) == pattern
}

/// Whether `pattern` stands anywhere in `text`.
pub open spec fn contains_text(text: Seq<char>, pattern: Seq<char>) -> bool {
    exists|at: int| occurs_at(text, pattern, at)
}

/// Whether `pattern` stands in `text` at position `at`.
pub fn matches_at(text: &Vec<char>, pattern: &Vec<char>, at: usize) -> (r: bool)
    requires
        at <= text.len(),
    ensures
        r == occurs_at(text@, pattern@, at as int),
{
    if text.len() - at < pattern.len() {
        return false;
    }
    let mut k: usize = 0;
    while k < pattern.len()
        invariant
            at + pattern.len() <= text.len(),
            k <= pattern.len(),
            forall|j: int| 0 <= j < k ==> text@[at + j] == pattern@[j],
        decreases pattern.len() - k,
    {
        if text[at + k] != pattern[k] {
            assert(text@.subrange(at as int, at + pattern.len())[k as int] != pattern@[k as int]);
            return false;
        }
        k += 1;
    }
    assert(text@.subrange(at as int, at + pattern.len()) =~= pattern@);
    true
}

/// `text` with every occurrence of `from` replaced by `to`. Occurrences are
/// taken from left to right and do not overlap.
pub open spec fn replaced(text: Seq<char>, from: Seq<char>, to: Seq<char>) -> Seq<char>
    decreases text.len(),
{
    if from.len() == 0 || text.len() == 0 {
        text
    } else if occurs_at(text, from, 0) {
        to + replaced(text.skip(from.len() as int), from, to)
    } else {
        seq![text[0]] + replaced(text.skip(1), from, to)
    }
}

/// Replaces every occurrence of `from` in `text` by `to`.
pub fn replace_all(text: &str, from: &str, to: &str) -> (r: String)
    requires
        from@.len() > 0,
    ensures
        r@ == replaced(text@, from@, to@),
{
    let chars = chars_of(text);
    let pattern = chars_of(from);
    let ghost all = replaced(text@, from@, to@);
    let mut out = String::new();
    let mut kept: usize = 0;
    let mut i: usize = 0;
    assert(text@.skip(0) =~= text@);
    assert(all =~= out@ + text@.subrange(0, 0) + replaced(text@.skip(0), from@, to@));
    while i < chars.len()
        invariant
            from@.len() > 0,
            chars@ == text@,
            pattern@ == from@,
            kept <= i <= chars.len(),
            all == out@ + text@.subrange(kept as int, i as int) + replaced(
                text@.skip(i as int),
                from@,
                to@,
            ),
        decreases chars.len() - i,
    {
        let ghost rest = text@.skip(i as int);
        if matches_at(&chars, &pattern, i) {
            proof {
                assert(rest.subrange(0, from@.len() as int) =~= text@.subrange(
                    i as int,
                    i + from@.len(),
                ));
                assert(occurs_at(rest, from@, 0));
                assert(rest.skip(from@.len() as int) =~= text@.skip(i + from@.len()));
            }
            let ghost before = out@;
            out.append(text.substring_char(kept, i));
            out.append(to);
            i += pattern.len();
            kept = i;
            proof {
                assert(all =~= out@ + text@.subrange(kept as int, i as int) + replaced(
                    text@.skip(i as int),
                    from@,
                    to@,
                ));
            }
        } else {
            proof {
                if occurs_at(rest, from@, 0) {
                    assert(rest.subrange(0, from@.len() as int) =~= text@.subrange(
                        i as int,
                        i + from@.len(),
                    ));
                }
                assert(rest.skip(1) =~= text@.skip(i + 1));
                assert(all =~= out@ + text@.subrange(kept as int, i + 1) + replaced(
                    text@.skip(i + 1),
                    from@,
                    to@,
                ));
            }
            i += 1;
        }
    }
    out.append(text.substring_char(kept, i));
    assert(replaced(text@.skip(i as int), from@, to@) =~= Seq::empty());
    assert(all =~= out@);
    out
}

/// Whether `value` can stand in for a variable without disturbing `pattern`,
/// a text between two `mark`s: it holds no `mark`, and it holds a character
/// that `pattern` lacks.
pub open spec fn undisturbing(value: Seq<char>, pattern: Seq<char>, mark: char) -> bool {
    &&& !value.contains(mark)
    &&& exists|i: int| 0 <= i < value.len() && !pattern.contains(#[trigger] value[i])
}

/// Whether `pattern` is a text between two `mark`s.
pub open spec fn is_marked(pattern: Seq<char>, mark: char) -> bool {
    &&& pattern.len() >= 2
    &&& pattern[0] == mark
    &&& pattern.last() == mark
}

/// A tail of `pattern` at the start of the replaced text stands at the start of
/// the text itself.
proof fn replacing_makes_no_tail(
    text: Seq<char>,
    from: Seq<char>,
    to: Seq<char>,
    pattern: Seq<char>,
    tail: Seq<char>,
    mark: char,
)
    requires
        from.len() > 0,
        undisturbing(to, pattern, mark),
        tail.len() > 0,
        tail.last() == mark,
        forall|i: int| 0 <= i < tail.len() ==> pattern.contains(#[trigger] tail[i]),
        occurs_at(replaced(text, from, to), tail, 0),
    ensures
        occurs_at(text, tail, 0),
        !occurs_at(text, from, 0),
    decreases text.len(),
{
    let result = replaced(text, from, to);
    assert(forall|i: int| 0 <= i < tail.len() ==> #[trigger] tail[i] == result.subrange(
        0,
        tail.len() as int,
    )[i]);
    if text.len() > 0 {
        if occurs_at(text, from, 0) {
            assert(forall|i: int| 0 <= i < to.len() ==> #[trigger] to[i] == result[i]);
            if tail.len() <= to.len() {
                assert(to[tail.len() - 1] == mark);
                assert(to.contains(mark));
            } else {
                let i = choose|i: int|
                    0 <= i < to.len() && !pattern.contains(#[trigger] to[i]);
                assert(tail[i] == to[i]);
            }
            assert(false);
        } else {
            let rest = replaced(text.skip(1), from, to);
            assert(result.skip(1) =~= rest);
            assert(tail[0] == text[0]);
            if tail.len() > 1 {
                let shorter = tail.skip(1);
                assert(shorter.last() == mark);
                assert(rest.subrange(0, shorter.len() as int) =~= shorter);
                assert forall|i: int| 0 <= i < shorter.len() implies pattern.contains(
                    #[trigger] shorter[i],
                ) by {
                    assert(shorter[i] == tail[i + 1]);
                }
                replacing_makes_no_tail(text.skip(1), from, to, pattern, shorter, mark);
                assert(forall|i: int|
                    0 <= i < shorter.len() ==> #[trigger] shorter[i] == text.skip(1).subrange(
                        0,
                        shorter.len() as int,
                    )[i]);
            }
            assert forall|i: int| 0 <= i < tail.len() implies #[trigger] text[i] == tail[i] by {
                if i > 0 {
                    assert(tail.skip(1)[i - 1] == tail[i]);
                    assert(text.skip(1)[i - 1] == text[i]);
                }
            }
            assert(text.subrange(0, tail.len() as int) =~= tail);
        }
    }
}

/// Replacing the occurrences of one variable leaves none of it, and brings in
/// none of another that was not there, where the value is undisturbing.
pub proof fn replacing_leaves_no_pattern(
    text: Seq<char>,
    from: Seq<char>,
    to: Seq<char>,
    pattern: Seq<char>,
    mark: char,
)
    requires
        from.len() > 0,
        is_marked(pattern, mark),
        undisturbing(to, pattern, mark),
        pattern == from || !contains_text(text, pattern),
    ensures
        !contains_text(replaced(text, from, to), pattern),
    decreases text.len(),
{
    let result = replaced(text, from, to);
    assert forall|at: int| !occurs_at(result, pattern, at) by {
        if occurs_at(result, pattern, at) {
            assert(result[at] == result.subrange(at, at + pattern.len())[0]);
            if text.len() == 0 {
                assert(false);
            } else if occurs_at(text, from, 0) {
                let rest = text.skip(from.len() as int);
                if at < to.len() {
                    assert(to[at] == mark);
                    assert(to.contains(mark));
                } else {
                    assert(result.subrange(at, at + pattern.len()) =~= replaced(
                        rest,
                        from,
                        to,
                    ).subrange(at - to.len(), at - to.len() + pattern.len()));
                    assert(occurs_at(replaced(rest, from, to), pattern, at - to.len()));
                    occurrence_in_rest(text, pattern, from.len() as int);
                    replacing_leaves_no_pattern(rest, from, to, pattern, mark);
                }
            } else if at == 0 {
                replacing_makes_no_tail(text, from, to, pattern, pattern, mark);
                assert(false);
            } else {
                let rest = text.skip(1);
                assert(result.subrange(at, at + pattern.len()) =~= replaced(
                    rest,
                    from,
                    to,
                ).subrange(at - 1, at - 1 + pattern.len()));
                assert(occurs_at(replaced(rest, from, to), pattern, at - 1));
                occurrence_in_rest(text, pattern, 1);
                replacing_leaves_no_pattern(rest, from, to, pattern, mark);
            }
        }
    }
}

/// What stands in the rest of a text stands in the text.
proof fn occurrence_in_rest(text: Seq<char>, pattern: Seq<char>, cut: int)
    requires
        0 <= cut <= text.len(),
    ensures
        contains_text(text.skip(cut), pattern) ==> contains_text(text, pattern),
{
    if contains_text(text.skip(cut), pattern) {
        let at = choose|at: int| occurs_at(text.skip(cut), pattern, at);
        assert(text.subrange(cut + at, cut + at + pattern.len()) =~= text.skip(cut).subrange(
            at,
            at + pattern.len(),
        ));
        assert(occurs_at(text, pattern, cut + at));
    }
}

/// What stands behind a head stands in the whole.
proof fn occurrence_behind(head: Seq<char>, rest: Seq<char>, pattern: Seq<char>)
    ensures
        contains_text(rest, pattern) ==> contains_text(head + rest, pattern),
{
    if contains_text(rest, pattern) {
        assert((head + rest).skip(head.len() as int) =~= rest);
        occurrence_in_rest(head + rest, pattern, head.len() as int);
    }
}

/// Where a pattern does not stand in a text, replacing it changes nothing.
pub proof fn replacing_nothing(text: Seq<char>, from: Seq<char>, to: Seq<char>)
    requires
        !contains_text(text, from),
    ensures
        replaced(text, from, to) == text,
    decreases text.len(),
{
    if from.len() > 0 && text.len() > 0 {
        occurrence_in_rest(text, from, 1);
        replacing_nothing(text.skip(1), from, to);
        assert(seq![text[0]] + text.skip(1) =~= text);
    }
}

proof fn removing_lengthens_nothing(text: Seq<char>, from: Seq<char>)
    ensures
        replaced(text, from, Seq::empty()).len() <= text.len(),
    decreases text.len(),
{
    if from.len() > 0 && text.len() > 0 {
        if occurs_at(text, from, 0) {
            removing_lengthens_nothing(text.skip(from.len() as int), from);
        } else {
            removing_lengthens_nothing(text.skip(1), from);
        }
    }
}

/// Where a pattern stands in a text, the text is shorter without it.
pub proof fn removing_shortens(text: Seq<char>, from: Seq<char>)
    requires
        from.len() > 0,
        contains_text(text, from),
    ensures
        replaced(text, from, Seq::empty()).len() < text.len(),
    decreases text.len(),
{
    let at = choose|at: int| occurs_at(text, from, at);
    if occurs_at(text, from, 0) {
        removing_lengthens_nothing(text.skip(from.len() as int), from);
    } else {
        assert(text.skip(1).subrange(at - 1, at - 1 + from.len()) =~= text.subrange(
            at,
            at + from.len(),
        ));
        assert(occurs_at(text.skip(1), from, at - 1));
        removing_shortens(text.skip(1), from);
    }
}

/// Where a variable stands in a text, its value stands in the replaced text.
pub proof fn replacing_brings_the_value(text: Seq<char>, from: Seq<char>, to: Seq<char>)
    requires
        from.len() > 0,
        contains_text(text, from),
    ensures
        contains_text(replaced(text, from, to), to),
    decreases text.len(),
{
    if occurs_at(text, from, 0) {
        let rest = replaced(text.skip(from.len() as int), from, to);
        assert((to + rest).subrange(0, to.len() as int) =~= to);
        assert(occurs_at(to + rest, to, 0));
    } else {
        let at = choose|at: int| occurs_at(text, from, at);
        assert(text.skip(1).subrange(at - 1, at - 1 + from.len()) =~= text.subrange(
            at,
            at + from.len(),
        ));
        assert(occurs_at(text.skip(1), from, at - 1));
        replacing_brings_the_value(text.skip(1), from, to);
        occurrence_behind(seq![text[0]], replaced(text.skip(1), from, to), to);
    }
}

/// A text that a variable cannot overlap stays where other variables are
/// replaced.
pub proof fn replacing_keeps_undisturbing_text(
    text: Seq<char>,
    from: Seq<char>,
    to: Seq<char>,
    value: Seq<char>,
    mark: char,
)
    requires
        is_marked(from, mark),
        undisturbing(value, from, mark),
        contains_text(text, value),
    ensures
        contains_text(replaced(text, from, to), value),
    decreases text.len(),
{
    let at = choose|at: int| occurs_at(text, value, at);
    let inside = text.subrange(at, at + value.len());
    assert(forall|i: int| 0 <= i < value.len() ==> value[i] == #[trigger] text[at + i]) by {
        assert forall|i: int| 0 <= i < value.len() implies value[i] == #[trigger] text[at + i] by {
            assert(inside[i] == text[at + i]);
        }
    }
    if occurs_at(text, from, 0) {
        let n = from.len() as int;
        assert(forall|i: int| 0 <= i < n ==> #[trigger] from[i] == text.subrange(0, n)[i]);
        if at < n {
            if at + value.len() >= n {
                assert(value[n - 1 - at] == text[at + (n - 1 - at)]);
                assert(value[n - 1 - at] == mark);
                assert(value.contains(mark));
            } else {
                let i = choose|i: int|
                    0 <= i < value.len() && !from.contains(#[trigger] value[i]);
                assert(value[i] == text[at + i]);
                assert(from[at + i] == value[i]);
            }
            assert(false);
        }
        assert(text.skip(n).subrange(at - n, at - n + value.len()) =~= inside);
        assert(occurs_at(text.skip(n), value, at - n));
        replacing_keeps_undisturbing_text(text.skip(n), from, to, value, mark);
        occurrence_behind(to, replaced(text.skip(n), from, to), value);
    } else if at == 0 {
        replacing_keeps_start(text, from, to, value, mark);
    } else {
        assert(text.skip(1).subrange(at - 1, at - 1 + value.len()) =~= inside);
        assert(occurs_at(text.skip(1), value, at - 1));
        replacing_keeps_undisturbing_text(text.skip(1), from, to, value, mark);
        occurrence_behind(seq![text[0]], replaced(text.skip(1), from, to), value);
    }
}

/// A text without `mark` at the start stays at the start.
proof fn replacing_keeps_start(
    text: Seq<char>,
    from: Seq<char>,
    to: Seq<char>,
    value: Seq<char>,
    mark: char,
)
    requires
        is_marked(from, mark),
        !value.contains(mark),
        occurs_at(text, value, 0),
    ensures
        occurs_at(replaced(text, from, to), value, 0),
    decreases text.len(),
{
    let result = replaced(text, from, to);
    if value.len() == 0 {
        assert(result.subrange(0, 0) =~= value);
    } else {
        assert(value[0] == text.subrange(0, value.len() as int)[0]);
        assert(value.contains(value[0]));
        if occurs_at(text, from, 0) {
            assert(from[0] == text.subrange(0, from.len() as int)[0]);
            assert(false);
        }
        let rest = replaced(text.skip(1), from, to);
        let shorter = value.skip(1);
        assert(text.skip(1).subrange(0, shorter.len() as int) =~= shorter) by {
            assert(shorter =~= text.subrange(0, value.len() as int).skip(1));
        }
        if shorter.contains(mark) {
            let i = choose|i: int| 0 <= i < shorter.len() && shorter[i] == mark;
            assert(value[i + 1] == mark);
        }
        replacing_keeps_start(text.skip(1), from, to, shorter, mark);
        assert(forall|i: int|
            0 <= i < shorter.len() ==> #[trigger] shorter[i] == rest.subrange(
                0,
                shorter.len() as int,
            )[i]);
        assert forall|i: int| 0 <= i < value.len() implies #[trigger] result[i] == value[i] by {
            if i > 0 {
                assert(shorter[i - 1] == value[i]);
                assert(rest[i - 1] == shorter[i - 1]);
            }
        }
        assert(result.subrange(0, value.len() as int) =~= value);
    }
}

/// The characters that Unicode gives the `White_Space` property.
pub open spec fn is_white_space(c: char) -> bool {
    ||| '\u{9}' <= c <= '\u{d}'
    ||| c == '\u{20}'
    ||| c == '\u{85}'
    ||| c == '\u{a0}'
    ||| c == '\u{1680}'
    ||| '\u{2000}' <= c <= '\u{200a}'
    ||| c == '\u{2028}'
    ||| c == '\u{2029}'
    ||| c == '\u{202f}'
    ||| c == '\u{205f}'
    ||| c == '\u{3000}'
}

fn white_space(c: char) -> (r: bool)
    ensures
        r == is_white_space(c),
{
    ('\u{9}' <= c && c <= '\u{d}') || c == '\u{20}' || c == '\u{85}' || c == '\u{a0}' || c
        == '\u{1680}' || ('\u{2000}' <= c && c <= '\u{200a}') || c == '\u{2028}' || c == '\u{2029}'
        || c == '\u{202f}' || c == '\u{205f}' || c == '\u{3000}'
}

/// `text` without its leading white space.
pub open spec fn trimmed_start(text: Seq<char>) -> Seq<char>
    decreases text.len(),
{
    if text.len() > 0 && is_white_space(text[0]) {
        trimmed_start(text.skip(1))
    } else {
        text
    }
}

/// `text` without its trailing white space.
pub open spec fn trimmed_end(text: Seq<char>) -> Seq<char>
    decreases text.len(),
{
    if text.len() > 0 && is_white_space(text.last()) {
        trimmed_end(text.drop_last())
    } else {
        text
    }
}

/// `text` without the white space on either side.
pub open spec fn trimmed(text: Seq<char>) -> Seq<char> {
    trimmed_end(trimmed_start(text))
}

/// Cuts the white space off both ends of `text`.
pub fn trim<'a>(text: &'a str) -> (r: &'a str)
    ensures
        r@ == trimmed(text@),
{
    let chars = chars_of(text);
    let mut start: usize = 0;
    assert(text@.skip(0) =~= text@);
    while start < chars.len() && white_space(chars[start])
        invariant
            chars@ == text@,
            start <= chars.len(),
            trimmed_start(text@) == trimmed_start(text@.skip(start as int)),
        decreases chars.len() - start,
    {
        assert(text@.skip(start as int).skip(1) =~= text@.skip(start + 1));
        start += 1;
    }
    let mut end: usize = chars.len();
    assert(text@.subrange(start as int, end as int) =~= text@.skip(start as int));
    assert(trimmed_start(text@) == text@.skip(start as int));
    while start < end && white_space(chars[end - 1])
        invariant
            chars@ == text@,
            start <= end <= chars.len(),
            trimmed(text@) == trimmed_end(text@.subrange(start as int, end as int)),
        decreases end - start,
    {
        assert(text@.subrange(start as int, end as int).drop_last() =~= text@.subrange(
            start as int,
            end - 1,
        ));
        end -= 1;
    }
    text.substring_char(start, end)
}

/// The part of `text` before the first `mark`, or all of it where there is none.
pub open spec fn before(text: Seq<char>, mark: char) -> Seq<char>
    decreases text.len(),
{
    if text.len() == 0 || text[0] == mark {
        Seq::empty()
    } else {
        seq![text[0]] + before(text.skip(1), mark)
    }
}

/// The part of `text` before the first `mark`.
pub fn split_before<'a>(text: &'a str, mark: char) -> (r: &'a str)
    ensures
        r@ == before(text@, mark),
{
    let chars = chars_of(text);
    let mut end: usize = 0;
    assert(text@.skip(0) =~= text@);
    assert(before(text@, mark) =~= text@.take(0) + before(text@.skip(0), mark));
    while end < chars.len() && chars[end] != mark
        invariant
            chars@ == text@,
            end <= chars.len(),
            before(text@, mark) == text@.take(end as int) + before(text@.skip(end as int), mark),
        decreases chars.len() - end,
    {
        proof {
            assert(text@.skip(end as int).skip(1) =~= text@.skip(end + 1));
            assert(before(text@, mark) =~= text@.take(end + 1) + before(
                text@.skip(end + 1),
                mark,
            ));
        }
        end += 1;
    }
    assert(before(text@.skip(end as int), mark) =~= Seq::empty());
    assert(before(text@, mark) =~= text@.subrange(0, end as int));
    text.substring_char(0, end)
}

/// What follows `prefix` in `text`, where `text` starts with it.
pub open spec fn after_prefix(text: Seq<char>, prefix: Seq<char>) -> Option<Seq<char>> {
    if occurs_at(text, prefix, 0) {
        Some(text.skip(prefix.len() as int))
    } else {
        None
    }
}

/// Cuts `prefix` off the start of `text`.
pub fn strip_prefix<'a>(text: &'a str, prefix: &str) -> (r: Option<&'a str>)
    ensures
        match r {
            Some(rest) => after_prefix(text@, prefix@) == Some(rest@),
            None => after_prefix(text@, prefix@) is None,
        },
{
    let chars = chars_of(text);
    let pattern = chars_of(prefix);
    if matches_at(&chars, &pattern, 0) {
        let rest = text.substring_char(pattern.len(), chars.len());
        assert(rest@ =~= text@.skip(prefix@.len() as int));
        Some(rest)
    } else {
        None
    }
}

/// Whether `a` comes strictly before `b` in the lexicographic order of their
/// characters.
pub open spec fn text_before(a: Seq<char>, b: Seq<char>) -> bool
    decreases a.len(),
{
    if b.len() == 0 {
        false
    } else if a.len() == 0 {
        true
    } else if a[0] != b[0] {
        a[0] < b[0]
    } else {
        text_before(a.skip(1), b.skip(1))
    }
}

/// Of two different texts, one comes before the other and not the other way
/// round; no text comes before itself.
pub proof fn text_order_is_total(a: Seq<char>, b: Seq<char>)
    ensures
        a == b <==> (!text_before(a, b) && !text_before(b, a)),
        !(text_before(a, b) && text_before(b, a)),
    decreases a.len(),
{
    if a.len() > 0 && b.len() > 0 && a[0] == b[0] {
        text_order_is_total(a.skip(1), b.skip(1));
        if a.skip(1) == b.skip(1) {
            assert(a =~= seq![a[0]] + a.skip(1));
            assert(b =~= seq![b[0]] + b.skip(1));
        }
    } else if a.len() == 0 && b.len() == 0 {
        assert(a =~= b);
    }
}

/// The order of texts is transitive.
pub proof fn text_order_is_transitive(a: Seq<char>, b: Seq<char>, c: Seq<char>)
    requires
        text_before(a, b),
        text_before(b, c),
    ensures
        text_before(a, c),
    decreases a.len(),
{
    if a.len() > 0 && a[0] == b[0] && b[0] == c[0] {
        text_order_is_transitive(a.skip(1), b.skip(1), c.skip(1));
    }
}

/// Whether `a` comes strictly before `b`.
pub fn comes_before(a: &str, b: &str) -> (r: bool)
    ensures
        r == text_before(a@, b@),
{
    let left = chars_of(a);
    let right = chars_of(b);
    let mut i: usize = 0;
    assert(a@.skip(0) =~= a@);
    assert(b@.skip(0) =~= b@);
    while i < left.len() && i < right.len()
        invariant
            left@ == a@,
            right@ == b@,
            i <= left.len(),
            i <= right.len(),
            text_before(a@, b@) == text_before(a@.skip(i as int), b@.skip(i as int)),
        decreases left.len() - i,
    {
        if left[i] != right[i] {
            return left[i] < right[i];
        }
        assert(a@.skip(i as int).skip(1) =~= a@.skip(i + 1));
        assert(b@.skip(i as int).skip(1) =~= b@.skip(i + 1));
        i += 1;
    }
    i < right.len()
}

} // verus!
