//! What holds of texts that are built, cut and compared.

use vstd::prelude::*;

use crate::text;

verus! {

/// Where the part with the number `i` starts among `parts` that are joined with
/// a separator of length `gap`.
pub open spec fn offset(parts: Seq<Seq<char>>, gap: nat, i: int) -> int
    decreases i,
{
    if i <= 0 {
        0
    } else {
        offset(parts, gap, i - 1) + parts[i - 1].len() + gap
    }
}

proof fn offsets_of_fewer(parts: Seq<Seq<char>>, gap: nat, i: int)
    requires
        0 <= i < parts.len(),
    ensures
        offset(parts.drop_last(), gap, i) == offset(parts, gap, i),
    decreases i,
{
    if i > 0 {
        offsets_of_fewer(parts, gap, i - 1);
    }
}

/// Each part stands whole and in its place in the joined text, the separator
/// follows every part but the last, and there is nothing else.
pub proof fn joining_keeps_each_part(parts: Seq<Seq<char>>, separator: Seq<char>, i: int)
    requires
        0 <= i < parts.len(),
    ensures
        text::occurs_at(
            text::joined(parts, separator),
            parts[i],
            offset(parts, separator.len(), i),
        ),
        i < parts.len() - 1 ==> text::occurs_at(
            text::joined(parts, separator),
            separator,
            offset(parts, separator.len(), i) + parts[i].len(),
        ),
        text::joined(parts, separator).len() == offset(
            parts,
            separator.len(),
            parts.len() as int,
        ) - separator.len(),
    decreases parts.len(),
{
    let whole = text::joined(parts, separator);
    let gap = separator.len();
    if parts.len() == 1 {
        assert(whole.subrange(0, parts[0].len() as int) =~= parts[0]);
        assert(offset(parts, gap, 1) == offset(parts, gap, 0) + parts[0].len() + gap);
    } else {
        let fewer = parts.drop_last();
        let last = parts.len() - 1;
        let head = text::joined(fewer, separator);
        joining_keeps_each_part(fewer, separator, last - 1);
        offsets_of_fewer(parts, gap, last - 1);
        assert(offset(fewer, gap, last) == offset(fewer, gap, last - 1) + fewer[last - 1].len()
            + gap);
        assert(offset(parts, gap, last) == offset(parts, gap, last - 1) + parts[last - 1].len()
            + gap);
        assert(offset(parts, gap, last + 1) == offset(parts, gap, last) + parts[last].len() + gap);
        assert(whole.len() == head.len() + gap + parts[last].len());
        if i == last {
            assert(whole.subrange(
                (head.len() + gap) as int,
                (head.len() + gap + parts[last].len()) as int,
            ) =~= parts[last]);
        } else {
            joining_keeps_each_part(fewer, separator, i);
            offsets_of_fewer(parts, gap, i);
            let at = offset(parts, gap, i);
            assert(whole.subrange(at, at + parts[i].len()) =~= head.subrange(
                at,
                at + parts[i].len(),
            ));
            if i < last - 1 {
                let after = at + parts[i].len();
                assert(whole.subrange(after, after + gap) =~= head.subrange(after, after + gap));
            } else {
                assert(whole.subrange(head.len() as int, (head.len() + gap) as int) =~= separator);
            }
        }
    }
}

/// Nothing is made of no parts, and one part stays as it is.
pub proof fn joining_few_parts(part: Seq<char>, separator: Seq<char>)
    ensures
        text::joined(Seq::empty(), separator).len() == 0,
        text::joined(seq![part], separator) == part,
{
}

/// The number that decimal digits stand for.
pub open spec fn number_of(digits: Seq<char>) -> int
    decreases digits.len(),
{
    if digits.len() == 0 {
        0
    } else {
        number_of(digits.drop_last()) * 10 + (digits.last() as int - '0' as int)
    }
}

/// A number in decimal notation consists of digits, has no leading zero but for
/// zero itself, and stands for that number.
pub proof fn decimal_notation_is_read_back(n: nat)
    ensures
        number_of(text::decimal_text(n)) == n,
        text::decimal_text(n).len() > 0,
        forall|i: int|
            0 <= i < text::decimal_text(n).len() ==> '0' <= #[trigger] text::decimal_text(n)[i]
                <= '9',
        n > 0 ==> text::decimal_text(n)[0] != '0',
        n == 0 ==> text::decimal_text(n).len() == 1,
    decreases n,
{
    let digits = text::decimal_text(n);
    if n < 10 {
        assert(digits.drop_last() =~= Seq::empty());
        assert(number_of(digits.drop_last()) == 0);
        assert(number_of(digits) == digits.last() as int - '0' as int);
    } else {
        decimal_notation_is_read_back(n / 10);
        assert(digits.drop_last() =~= text::decimal_text(n / 10));
        assert(n == (n / 10) * 10 + n % 10);
    }
}

/// A text is its trimmed part with white space on either side, and the trimmed
/// part neither starts nor ends with white space.
pub proof fn trimming_cuts_white_space(whole: Seq<char>) -> (r: (Seq<char>, Seq<char>))
    ensures
        whole == r.0 + text::trimmed(whole) + r.1,
        forall|i: int| 0 <= i < r.0.len() ==> text::is_white_space(#[trigger] r.0[i]),
        forall|i: int| 0 <= i < r.1.len() ==> text::is_white_space(#[trigger] r.1[i]),
        text::trimmed(whole).len() > 0 ==> {
            &&& !text::is_white_space(text::trimmed(whole)[0])
            &&& !text::is_white_space(text::trimmed(whole).last())
        },
{
    let head = trimming_the_start(whole);
    let rest = text::trimmed_start(whole);
    let tail = trimming_the_end(rest);
    assert(whole =~= head + text::trimmed(whole) + tail);
    (head, tail)
}

proof fn trimming_the_start(whole: Seq<char>) -> (head: Seq<char>)
    ensures
        whole == head + text::trimmed_start(whole),
        forall|i: int| 0 <= i < head.len() ==> text::is_white_space(#[trigger] head[i]),
        text::trimmed_start(whole).len() > 0 ==> !text::is_white_space(
            text::trimmed_start(whole)[0],
        ),
    decreases whole.len(),
{
    if whole.len() > 0 && text::is_white_space(whole[0]) {
        let head = trimming_the_start(whole.skip(1));
        let longer = seq![whole[0]] + head;
        assert(whole =~= seq![whole[0]] + whole.skip(1));
        assert(seq![whole[0]] + (head + text::trimmed_start(whole)) =~= longer
            + text::trimmed_start(whole));
        longer
    } else {
        assert(whole =~= Seq::empty() + whole);
        Seq::empty()
    }
}

proof fn trimming_the_end(whole: Seq<char>) -> (tail: Seq<char>)
    ensures
        whole == text::trimmed_end(whole) + tail,
        forall|i: int| 0 <= i < tail.len() ==> text::is_white_space(#[trigger] tail[i]),
        text::trimmed_end(whole).len() > 0 ==> !text::is_white_space(
            text::trimmed_end(whole).last(),
        ),
        text::trimmed_end(whole).len() > 0 ==> text::trimmed_end(whole)[0] == whole[0],
    decreases whole.len(),
{
    if whole.len() > 0 && text::is_white_space(whole.last()) {
        let tail = trimming_the_end(whole.drop_last());
        let longer = tail.push(whole.last());
        assert(whole =~= whole.drop_last().push(whole.last()));
        assert((text::trimmed_end(whole) + tail).push(whole.last()) =~= text::trimmed_end(whole)
            + longer);
        longer
    } else {
        assert(whole =~= whole + Seq::empty());
        Seq::empty()
    }
}

/// White space are tab, the line breaks and space, and what Unicode has besides
/// them: the next line, the spaces of fixed width, and the separators of lines
/// and paragraphs.
pub proof fn white_space_is_that_of_unicode(c: char)
    ensures
        (c as int) < 128 ==> (text::is_white_space(c) <==> c == ' ' || c == '\t' || c == '\n' || c
            == '\r' || (c as int) == 11 || (c as int) == 12),
        128 <= (c as int) < 0x2000 ==> (text::is_white_space(c) <==> (c as int) == 0x85 || (
        c as int) == 0xa0 || (c as int) == 0x1680),
        0x2000 <= (c as int) ==> (text::is_white_space(c) <==> (c as int) <= 0x200a || (c as int)
            == 0x2028 || (c as int) == 0x2029 || (c as int) == 0x202f || (c as int) == 0x205f || (
        c as int) == 0x3000),
{
}

/// The part before a mark holds no mark, the text starts with it, and the rest
/// is nothing or starts with the mark.
pub proof fn the_part_before_a_mark(whole: Seq<char>, mark: char)
    ensures
        !text::before(whole, mark).contains(mark),
        text::before(whole, mark).is_prefix_of(whole),
        text::before(whole, mark).len() < whole.len() ==> whole[text::before(
            whole,
            mark,
        ).len() as int] == mark,
    decreases whole.len(),
{
    if whole.len() > 0 && whole[0] != mark {
        the_part_before_a_mark(whole.skip(1), mark);
        let shorter = text::before(whole.skip(1), mark);
        let part = text::before(whole, mark);
        assert(part =~= seq![whole[0]] + shorter);
        assert forall|i: int| 0 <= i < part.len() implies part[i] == whole[i] && part[i]
            != mark by {
            if i > 0 {
                assert(part[i] == shorter[i - 1]);
                assert(shorter[i - 1] == whole.skip(1).subrange(0, shorter.len() as int)[i - 1]);
                assert(shorter.contains(shorter[i - 1]));
            }
        }
        assert(part =~= whole.subrange(0, part.len() as int));
    } else {
        assert(whole.subrange(0, 0) =~= Seq::<char>::empty());
    }
}

/// A text has a prefix, and something after it, exactly if it is the two put
/// together.
pub proof fn a_prefix_is_cut_off(whole: Seq<char>, prefix: Seq<char>, rest: Seq<char>)
    ensures
        text::after_prefix(whole, prefix) == Some(rest) <==> whole == prefix + rest,
        text::after_prefix(whole, prefix) is Some <==> prefix.is_prefix_of(whole),
{
    if whole == prefix + rest {
        assert(whole.subrange(0, prefix.len() as int) =~= prefix);
        assert(whole.skip(prefix.len() as int) =~= rest);
    }
    if text::after_prefix(whole, prefix) == Some(rest) {
        assert(whole =~= prefix + rest);
    }
}

/// Where two texts first differ, the smaller character decides which comes
/// first, and a text comes before every longer text that starts with it.
pub proof fn the_first_difference_decides(
    start: Seq<char>,
    x: char,
    y: char,
    one: Seq<char>,
    other: Seq<char>,
)
    requires
        x != y,
    ensures
        text::text_before(start + seq![x] + one, start + seq![y] + other) <==> x < y,
        text::text_before(start, start + seq![y] + other),
    decreases start.len(),
{
    let a = start + seq![x] + one;
    let b = start + seq![y] + other;
    if start.len() > 0 {
        let rest = start.skip(1);
        the_first_difference_decides(rest, x, y, one, other);
        assert(a.skip(1) =~= rest + seq![x] + one);
        assert(b.skip(1) =~= rest + seq![y] + other);
    }
}

/// Replacing works through a text from left to right: what stands before the
/// first `from` stays, `to` takes the place of `from`, and the rest is replaced
/// likewise.
pub proof fn replacing_goes_on(
    head: Seq<char>,
    from: Seq<char>,
    rest: Seq<char>,
    to: Seq<char>,
)
    requires
        from.len() > 0,
        !head.contains(from[0]),
    ensures
        text::replaced(head + from + rest, from, to) == head + to + text::replaced(
            rest,
            from,
            to,
        ),
    decreases head.len(),
{
    let whole = head + from + rest;
    if head.len() == 0 {
        assert(whole.subrange(0, from.len() as int) =~= from);
        assert(whole.skip(from.len() as int) =~= rest);
        assert(head + to + text::replaced(rest, from, to) =~= to + text::replaced(rest, from, to));
    } else {
        if text::occurs_at(whole, from, 0) {
            assert(whole.subrange(0, from.len() as int)[0] == head[0]);
            assert(head.contains(head[0]));
        }
        let shorter = head.skip(1);
        if shorter.contains(from[0]) {
            let i = choose|i: int| 0 <= i < shorter.len() && shorter[i] == from[0];
            assert(head[i + 1] == from[0]);
        }
        replacing_goes_on(shorter, from, rest, to);
        assert(whole.skip(1) =~= shorter + from + rest);
        assert(text::replaced(whole, from, to) =~= head + to + text::replaced(rest, from, to));
    }
}

/// A text without the first character of `from` stays as it is.
pub proof fn replacing_needs_the_first_character(
    whole: Seq<char>,
    from: Seq<char>,
    to: Seq<char>,
)
    requires
        from.len() > 0,
        !whole.contains(from[0]),
    ensures
        text::replaced(whole, from, to) == whole,
{
    if text::contains_text(whole, from) {
        let at = choose|at: int| text::occurs_at(whole, from, at);
        assert(whole.subrange(at, at + from.len())[0] == whole[at]);
        assert(whole.contains(whole[at]));
    }
    text::replacing_nothing(whole, from, to);
}

/// What was put between two texts stands in the whole.
pub proof fn ends_stand_in_the_text(head: Seq<char>, part: Seq<char>, tail: Seq<char>)
    ensures
        text::contains_text(head + part + tail, part),
{
    let whole = head + part + tail;
    let at = head.len() as int;
    assert(whole.subrange(at, at + part.len()) =~= part);
    assert(text::occurs_at(whole, part, at));
}

} // verus!
