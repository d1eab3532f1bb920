//! What holds of texts.
use crate::text::{decimal, digit, has_part, pieces, replaced, ruler, sides, trimmed, white_space};
use vstd::prelude::*;

verus! {

/// The number that a text of digits stands for.
pub open spec fn value(s: Seq<char>) -> int
    decreases s.len(),
{
    if s.len() == 0 {
        0
    } else {
        value(s.drop_last()) * 10 + (s.last() as int - '0' as int)
    }
}

/// Every character of a text is white space.
pub open spec fn blank(s: Seq<char>) -> bool {
    forall|i: int| 0 <= i < s.len() ==> white_space(#[trigger] s[i])
}

/// A text neither begins nor ends in white space.
pub open spec fn clean(s: Seq<char>) -> bool {
    s.len() > 0 ==> !white_space(s[0]) && !white_space(s[s.len() - 1])
}

/// A number that is written and read again is the same number. It is written with digits only,
/// and does not begin with a zero unless it is zero.
pub proof fn law_numbers_read_back(n: nat)
    ensures
        value(decimal(n)) == n,
        decimal(n).len() > 0,
        forall|i: int| 0 <= i < decimal(n).len() ==> '0' <= #[trigger] decimal(n)[i] <= '9',
        n > 0 ==> decimal(n)[0] != '0',
        n == 0 ==> decimal(n) == seq!['0'],
    decreases n,
{
    reveal_with_fuel(value, 2);
    if n < 10 {
        assert(decimal(n).drop_last() =~= Seq::empty());
        assert(decimal(n) =~= seq![digit(n)]);
    } else {
        let front = decimal(n / 10);
        law_numbers_read_back(n / 10);
        assert(decimal(n) == front.push(digit(n % 10)));
        assert(decimal(n).drop_last() =~= front);
        assert forall|i: int| 0 <= i < decimal(n).len() implies '0' <= #[trigger] decimal(n)[i]
            <= '9' by {
            if i < front.len() {
                assert(decimal(n)[i] == front[i]);
            }
        }
        assert(decimal(n)[0] == front[0]);
    }
}

/// What white space is among the characters of ASCII: tab, line feed, the two breaks that follow
/// it, carriage return and space.
pub proof fn law_white_space_of_ascii(c: char)
    requires
        (c as int) < 128,
    ensures
        white_space(c) <==> c == '\t' || c == '\n' || (c as int) == 11 || (c as int) == 12 || c == '\r'
            || c == ' ',
{
}

/// White space around a text is dropped, and nothing else is.
pub proof fn law_only_the_ends_are_trimmed(a: Seq<char>, s: Seq<char>, b: Seq<char>)
    requires
        blank(a),
        blank(b),
        clean(s),
    ensures
        trimmed(a + s + b) == s,
    decreases a.len() + b.len(),
{
    let whole = a + s + b;
    if a.len() > 0 {
        assert(whole[0] == a[0]);
        let rest = a.drop_first();
        assert(forall|i: int| 0 <= i < rest.len() ==> rest[i] == #[trigger] a[i + 1]);
        assert forall|i: int| 0 <= i < rest.len() implies white_space(#[trigger] rest[i]) by {
            assert(rest[i] == a[i + 1]);
        }
        assert(whole.drop_first() =~= rest + s + b);
        law_only_the_ends_are_trimmed(rest, s, b);
    } else if s.len() == 0 && b.len() > 0 {
        assert(whole[0] == b[0]);
        let rest = b.drop_first();
        assert forall|i: int| 0 <= i < rest.len() implies white_space(#[trigger] rest[i]) by {
            assert(rest[i] == b[i + 1]);
        }
        assert(whole.drop_first() =~= a + s + rest);
        law_only_the_ends_are_trimmed(a, s, rest);
    } else if b.len() > 0 {
        assert(whole[0] == s[0]);
        assert(whole.last() == b[b.len() - 1]);
        let rest = b.drop_last();
        assert forall|i: int| 0 <= i < rest.len() implies white_space(#[trigger] rest[i]) by {
            assert(rest[i] == b[i]);
        }
        assert(whole.drop_last() =~= a + s + rest);
        law_only_the_ends_are_trimmed(a, s, rest);
    } else {
        assert(whole =~= s);
    }
}

/// What stands on the two sides of a separator is split apart, piece by piece.
pub proof fn law_pieces_of_both_sides(a: Seq<char>, b: Seq<char>, sep: char)
    ensures
        pieces(a.push(sep) + b, sep) == pieces(a, sep) + pieces(b, sep),
        pieces(b, sep).len() > 0,
    decreases b.len(),
{
    let whole = a.push(sep) + b;
    if b.len() == 0 {
        assert(whole =~= a.push(sep));
        assert(whole.drop_last() =~= a);
        assert(pieces(whole, sep) =~= pieces(a, sep) + pieces(b, sep));
    } else {
        law_pieces_of_both_sides(a, b.drop_last(), sep);
        assert(whole.drop_last() =~= a.push(sep) + b.drop_last());
        assert(whole.last() == b.last());
        assert(pieces(whole, sep) =~= pieces(a, sep) + pieces(b, sep));
    }
}

/// A text without the separator is one piece, whole.
pub proof fn law_one_piece(s: Seq<char>, sep: char)
    requires
        !s.contains(sep),
    ensures
        pieces(s, sep) == seq![s],
    decreases s.len(),
{
    if s.len() == 0 {
        assert(s =~= Seq::empty());
    } else {
        let front = s.drop_last();
        assert(s[s.len() - 1] == s.last());
        assert forall|i: int| 0 <= i < front.len() implies front[i] != sep by {
            assert(front[i] == s[i]);
        }
        law_one_piece(front, sep);
        assert(seq![front].last().push(s.last()) =~= s);
        assert(pieces(s, sep) =~= seq![s]);
    }
}

/// A text is cut at its first separator: what stands before it and all that stands after it.
pub proof fn law_cut_at_the_first(a: Seq<char>, b: Seq<char>, sep: char)
    requires
        !a.contains(sep),
    ensures
        sides(a.push(sep) + b, sep) == Some((a, b)),
    decreases a.len(),
{
    let whole = a.push(sep) + b;
    if a.len() == 0 {
        assert(whole.first() == sep);
        assert(whole.drop_first() =~= b);
        assert(a =~= Seq::empty());
    } else {
        let rest = a.drop_first();
        assert(whole.first() == a[0]);
        assert forall|i: int| 0 <= i < rest.len() implies rest[i] != sep by {
            assert(rest[i] == a[i + 1]);
        }
        assert(whole.drop_first() =~= rest.push(sep) + b);
        law_cut_at_the_first(rest, b, sep);
        assert(seq![a[0]] + rest =~= a);
    }
}

/// A text without the separator is not cut.
pub proof fn law_nothing_to_cut(s: Seq<char>, sep: char)
    requires
        !s.contains(sep),
    ensures
        sides(s, sep) is None,
    decreases s.len(),
{
    if s.len() > 0 {
        let rest = s.drop_first();
        assert(s[0] != sep);
        assert forall|i: int| 0 <= i < rest.len() implies rest[i] != sep by {
            assert(rest[i] == s[i + 1]);
        }
        law_nothing_to_cut(rest, sep);
    }
}

/// A part is found wherever it stands.
pub proof fn law_part_is_found(a: Seq<char>, part: Seq<char>, b: Seq<char>)
    ensures
        has_part(a + part + b, part),
{
    let s = a + part + b;
    let i = a.len() as int;
    assert(s.subrange(i, i + part.len()) =~= part);
}

/// What is found stands there.
pub proof fn law_found_part_stands_there(s: Seq<char>, part: Seq<char>)
    requires
        has_part(s, part),
    ensures
        exists|a: Seq<char>, b: Seq<char>| s == #[trigger] (a + part + b),
{
    let i = choose|i: int|
        0 <= i <= s.len() - part.len() && #[trigger] s.subrange(i, i + part.len()) == part;
    let a = s.take(i);
    let b = s.skip(i + part.len());
    assert(s =~= a + part + b);
}

/// The first occurrence of a part is replaced, what stands before it stays, and what stands after
/// it is looked at on its own.
pub proof fn law_first_part_is_replaced(
    a: Seq<char>,
    part: Seq<char>,
    b: Seq<char>,
    with: Seq<char>,
)
    requires
        part.len() > 0,
        forall|i: int|
            0 <= i < a.len() ==> #[trigger] (a + part + b).subrange(i, i + part.len()) != part,
    ensures
        replaced(a + part + b, part, with) == a + with + replaced(b, part, with),
    decreases a.len(),
{
    let s = a + part + b;
    if a.len() == 0 {
        assert(s.take(part.len() as int) =~= part);
        assert(s.skip(part.len() as int) =~= b);
        assert(a + with + replaced(b, part, with) =~= with + replaced(b, part, with));
    } else {
        let rest = a.drop_first();
        let start: int = 0;
        assert(s.subrange(start, start + part.len()) =~= s.take(part.len() as int));
        assert(s.take(part.len() as int) != part);
        assert(s.drop_first() =~= rest + part + b);
        assert forall|i: int| 0 <= i < rest.len() implies #[trigger] (rest + part + b).subrange(
            i,
            i + part.len(),
        ) != part by {
            assert((rest + part + b).subrange(i, i + part.len()) =~= s.subrange(
                i + 1,
                i + 1 + part.len(),
            ));
        }
        law_first_part_is_replaced(rest, part, b, with);
        assert(seq![s.first()] + (rest + with + replaced(b, part, with)) =~= a + with + replaced(
            b,
            part,
            with,
        ));
    }
}

/// A text without the part stays as it is.
pub proof fn law_nothing_to_replace(s: Seq<char>, part: Seq<char>, with: Seq<char>)
    requires
        !has_part(s, part),
    ensures
        replaced(s, part, with) == s,
    decreases s.len(),
{
    if part.len() > 0 && s.len() >= part.len() {
        let rest = s.drop_first();
        let start: int = 0;
        assert(s.subrange(start, start + part.len()) =~= s.take(part.len() as int));
        assert(s.take(part.len() as int) != part);
        if has_part(rest, part) {
            let i = choose|i: int|
                0 <= i <= rest.len() - part.len() && #[trigger] rest.subrange(i, i + part.len())
                    == part;
            assert(s.subrange(i + 1, i + 1 + part.len()) =~= rest.subrange(i, i + part.len()));
        }
        law_nothing_to_replace(rest, part, with);
        assert(seq![s.first()] + rest =~= s);
    }
}

/// A ruler is made of equals signs, as many as are asked for.
pub proof fn law_ruler_is_drawn(n: nat, i: int)
    requires
        0 <= i < n,
    ensures
        ruler(n).len() == n,
        ruler(n)[i] == '=',
        ruler(0).len() == 0,
{
}

} // verus!
