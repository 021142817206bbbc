//! What holds of the text primitives as a whole.

use crate::text::{
    decimal, digit, find_unique, is_blank, is_white_space, joined, lines_of, opt_text, precedes,
    signed_decimal, str_text, text_or, trimmed, trimmed_end, trimmed_start, views, without_return,
};
use vstd::prelude::*;

verus! {

/// A text that is given, also an empty one, goes before the default.
pub proof fn given_text_goes_first(text: String, borrowed: &str, default: Seq<char>)
    ensures
        text_or(Some(text), default) == text@,
        text_or(None, default) == default,
        opt_text(Some(text)) == Some(text@),
        opt_text(None) is None,
        str_text(Some(borrowed)) == Some(borrowed@),
        str_text(None) is None,
{
}

/// The views of a list are those of its strings, one for each.
pub proof fn one_view_each(parts: Seq<String>, i: int)
    ensures
        views(parts).len() == parts.len(),
        0 <= i < parts.len() ==> views(parts)[i] == parts[i]@,
{
}

/// Joining no part gives nothing, and joining one part gives that part.
pub proof fn joined_few(part: Seq<char>, sep: Seq<char>)
    ensures
        joined(Seq::empty(), sep).len() == 0,
        joined(seq![part], sep) == part,
{
}

/// Two lists of parts, joined one behind the other, have one separator between
/// them.
pub proof fn joined_in_sequence(first: Seq<Seq<char>>, second: Seq<Seq<char>>, sep: Seq<char>)
    requires
        first.len() > 0,
        second.len() > 0,
    ensures
        joined(first + second, sep) == joined(first, sep) + sep + joined(second, sep),
    decreases second.len(),
{
    let all = first + second;
    assert(all.last() == second.last());
    if second.len() == 1 {
        assert(all.drop_last() =~= first);
    } else {
        let head = second.drop_last();
        assert(all.drop_last() =~= first + head);
        joined_in_sequence(first, head, sep);
        assert(joined(all, sep) =~= joined(first, sep) + sep + (joined(head, sep) + sep
            + second.last()));
    }
}

/// What is left of a text without the white space at its start.
proof fn start_of_core(s: Seq<char>) -> (from: int)
    ensures
        0 <= from <= s.len(),
        trimmed_start(s) == s.skip(from),
        forall|i: int| 0 <= i < from ==> is_white_space(#[trigger] s[i]),
        from < s.len() ==> !is_white_space(s[from]),
    decreases s.len(),
{
    if s.len() > 0 && is_white_space(s[0]) {
        let rest = s.drop_first();
        let from = start_of_core(rest) + 1;
        assert(rest.skip(from - 1) =~= s.skip(from));
        assert forall|i: int| 0 <= i < from implies is_white_space(#[trigger] s[i]) by {
            if i > 0 {
                assert(s[i] == rest[i - 1]);
            }
        }
        from
    } else {
        assert(s.skip(0) =~= s);
        0
    }
}

/// What is left of a text without the white space at its end.
proof fn end_of_core(s: Seq<char>) -> (to: int)
    ensures
        0 <= to <= s.len(),
        trimmed_end(s) == s.take(to),
        forall|i: int| to <= i < s.len() ==> is_white_space(#[trigger] s[i]),
        to > 0 ==> !is_white_space(s[to - 1]),
    decreases s.len(),
{
    if s.len() > 0 && is_white_space(s.last()) {
        let rest = s.drop_last();
        let to = end_of_core(rest);
        assert(rest.take(to) =~= s.take(to));
        assert forall|i: int| to <= i < s.len() implies is_white_space(#[trigger] s[i]) by {
            if i < rest.len() {
                assert(s[i] == rest[i]);
            }
        }
        to
    } else {
        assert(s.take(s.len() as int) =~= s);
        s.len() as int
    }
}

/// Trimming takes away white space alone, and all of it at both ends: the text is
/// blank, what is left, and blank again, and what is left neither begins nor ends
/// with white space.
pub proof fn trimming_leaves_the_core(s: Seq<char>) -> (ends: (Seq<char>, Seq<char>))
    ensures
        s == ends.0 + trimmed(s) + ends.1,
        forall|i: int| 0 <= i < ends.0.len() ==> is_white_space(#[trigger] ends.0[i]),
        forall|i: int| 0 <= i < ends.1.len() ==> is_white_space(#[trigger] ends.1[i]),
        trimmed(s).len() > 0 ==> !is_white_space(trimmed(s)[0]) && !is_white_space(
            trimmed(s).last(),
        ),
{
    let from = start_of_core(s);
    let rest = s.skip(from);
    let to = end_of_core(rest);
    let core = rest.take(to);
    assert(s =~= s.take(from) + core + rest.skip(to));
    (s.take(from), rest.skip(to))
}

/// White space is a blank, what lies between tab and carriage return, and, beyond
/// ASCII, the spaces and separators of Unicode.
pub proof fn white_space_is_listed(c: char)
    ensures
        (c as int) < 0x80 ==> (is_white_space(c) <==> c == ' ' || c == '\t' || c == '\n' || c
            == '\u{b}' || c == '\u{c}' || c == '\r'),
        (c as int) >= 0x80 ==> (is_white_space(c) <==> seq![
            0x85int,
            0xa0,
            0x1680,
            0x2000,
            0x2001,
            0x2002,
            0x2003,
            0x2004,
            0x2005,
            0x2006,
            0x2007,
            0x2008,
            0x2009,
            0x200a,
            0x2028,
            0x2029,
            0x202f,
            0x205f,
            0x3000,
        ].contains(c as int)),
{
    let beyond = seq![
        0x85int,
        0xa0,
        0x1680,
        0x2000,
        0x2001,
        0x2002,
        0x2003,
        0x2004,
        0x2005,
        0x2006,
        0x2007,
        0x2008,
        0x2009,
        0x200a,
        0x2028,
        0x2029,
        0x202f,
        0x205f,
        0x3000,
    ];
    let n = c as int;
    if n >= 0x80 && is_white_space(c) {
        let at = if n == 0x85 {
            0
        } else if n == 0xa0 {
            1
        } else if n == 0x1680 {
            2
        } else if n <= 0x200a {
            n - 0x2000 + 3
        } else if n <= 0x2029 {
            n - 0x2028 + 14
        } else if n == 0x202f {
            16
        } else if n == 0x205f {
            17
        } else {
            18
        };
        assert(beyond[at] == n);
    }
}

/// A text is blank exactly when trimming leaves nothing of it.
pub proof fn blank_texts_trim_to_nothing(s: Seq<char>)
    ensures
        is_blank(s) <==> trimmed(s).len() == 0,
{
    let ends = trimming_leaves_the_core(s);
    let core = trimmed(s);
    if core.len() > 0 {
        assert(s[ends.0.len() as int] == core[0]);
    } else {
        assert forall|i: int| 0 <= i < s.len() implies is_white_space(#[trigger] s[i]) by {
            if i < ends.0.len() {
                assert(s[i] == ends.0[i]);
            } else {
                assert(s[i] == ends.1[i - ends.0.len()]);
            }
        }
    }
}

/// A text up to its first line feed is a line, without a carriage return at its
/// end, and the other lines are those of what follows.
pub proof fn first_line(line: Seq<char>, rest: Seq<char>)
    requires
        !line.contains('\n'),
    ensures
        lines_of(line + seq!['\n'] + rest) == seq![
            if line.len() > 0 && line.last() == '\r' {
                line.drop_last()
            } else {
                line
            },
        ] + lines_of(rest),
{
    let s = line + seq!['\n'] + rest;
    let n = line.len() as int;
    assert forall|i: int| 0 <= i < n implies s[i] != '\n' by {
        assert(s[i] == line[i]);
        assert(line.contains(line[i]));
    }
    find_unique(s, '\n', n);
    assert(s.take(n) =~= line);
    assert(s.skip(n + 1) =~= rest);
    assert(without_return(line) == if line.len() > 0 && line.last() == '\r' {
        line.drop_last()
    } else {
        line
    });
}

/// A text without a line feed is one line as it stands; nothing has no lines.
pub proof fn last_line(line: Seq<char>)
    requires
        !line.contains('\n'),
    ensures
        lines_of(line) == if line.len() == 0 {
            Seq::<Seq<char>>::empty()
        } else {
            seq![line]
        },
{
    assert forall|i: int| 0 <= i < line.len() implies line[i] != '\n' by {
        assert(line.contains(line[i]));
    }
    find_unique(line, '\n', line.len() as int);
}

/// The number that decimal digits stand for.
pub open spec fn digits_value(digits: Seq<char>) -> int
    decreases digits.len(),
{
    if digits.len() == 0 {
        0
    } else {
        10 * digits_value(digits.drop_last()) + (digits.last() as int - '0' as int)
    }
}

/// A number in decimal is read back as that number: it has digits alone, at least
/// one of them, and no zero in front of others.
pub proof fn decimal_reads_back(n: nat)
    ensures
        digits_value(decimal(n)) == n,
        decimal(n).len() > 0,
        decimal(n).len() > 1 ==> decimal(n)[0] != '0',
        n > 0 ==> decimal(n)[0] != '0',
        forall|i: int|
            0 <= i < decimal(n).len() ==> '0' as int <= (#[trigger] decimal(n)[i]) as int
                && decimal(n)[i] as int <= '9' as int,
    decreases n,
{
    if n < 10 {
        assert(decimal(n) =~= seq![digit(n)]);
        assert(decimal(n).drop_last() =~= Seq::<char>::empty());
        assert(digits_value(decimal(n).drop_last()) == 0);
    } else {
        decimal_reads_back(n / 10);
        assert(decimal(n).drop_last() =~= decimal(n / 10));
    }
}

/// A negative number has a minus sign in front of its digits, and no other number
/// has one.
pub proof fn signed_decimal_reads_back(n: int)
    ensures
        n < 0 ==> signed_decimal(n)[0] == '-' && digits_value(signed_decimal(n).skip(1)) == -n,
        n >= 0 ==> signed_decimal(n)[0] != '-' && digits_value(signed_decimal(n)) == n,
{
    if n < 0 {
        decimal_reads_back((-n) as nat);
        assert(signed_decimal(n).skip(1) =~= decimal((-n) as nat));
    } else {
        decimal_reads_back(n as nat);
    }
}

/// The first place at which two texts differ decides which comes first: the one
/// that ends there, or has the character with the lower code point.
pub proof fn first_difference_decides(one: Seq<char>, other: Seq<char>, at: int)
    requires
        0 <= at <= one.len(),
        at <= other.len(),
        forall|i: int| 0 <= i < at ==> one[i] == other[i],
        at == one.len() || at == other.len() || one[at] != other[at],
    ensures
        precedes(one, other) <==> at < other.len() && (at == one.len() || (one[at] as int) < (
        other[at] as int)),
    decreases at,
{
    if at > 0 {
        let a = one.drop_first();
        let b = other.drop_first();
        assert(one[0] == other[0]);
        assert forall|i: int| 0 <= i < at - 1 implies a[i] == b[i] by {
            assert(one[i + 1] == other[i + 1]);
        }
        first_difference_decides(a, b, at - 1);
    } else if one.len() > 0 && other.len() > 0 {
        assert(one[0] as int != other[0] as int);
    }
}

} // verus!
