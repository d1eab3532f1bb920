//! Text as sequences of characters: numbers, trimming, splitting, searching and replacing.
use vstd::prelude::*;

verus! {

/// The character of a decimal digit.
pub open spec fn digit(d: nat) -> char {
    (48 + d) as char
}

/// A number written in base ten, without leading zeros.
pub open spec fn decimal(n: nat) -> Seq<char>
    decreases n,
{
    if n < 10 {
        seq![digit(n)]
    } else {
        decimal(n / 10).push(digit(n % 10))
    }
}

/// Unicode's `White_Space` property.
pub open spec fn white_space(c: char) -> bool {
    let n = c as int;
    ||| 0x09 <= n <= 0x0d
    ||| n == 0x20
    ||| n == 0x85
    ||| n == 0xa0
    ||| n == 0x1680
    ||| 0x2000 <= n <= 0x200a
    ||| n == 0x2028
    ||| n == 0x2029
    ||| n == 0x202f
    ||| n == 0x205f
    ||| n == 0x3000
}

/// `s` without the white space at its two ends.
pub open spec fn trimmed(s: Seq<char>) -> Seq<char>
    decreases s.len(),
{
    if s.len() == 0 {
        s
    } else if white_space(s.first()) {
        trimmed(s.drop_first())
    } else if white_space(s.last()) {
        trimmed(s.drop_last())
    } else {
        s
    }
}

/// The pieces of `s` between the occurrences of `sep`: one more than there are occurrences.
pub open spec fn pieces(s: Seq<char>, sep: char) -> Seq<Seq<char>>
    decreases s.len(),
{
    if s.len() == 0 {
        seq![Seq::<char>::empty()]
    } else {
        let before = pieces(s.drop_last(), sep);
        if s.last() == sep {
            before.push(Seq::<char>::empty())
        } else {
            before.drop_last().push(before.last().push(s.last()))
        }
    }
}

/// The two sides of the first `sep` in `s`.
pub open spec fn sides(s: Seq<char>, sep: char) -> Option<(Seq<char>, Seq<char>)>
    decreases s.len(),
{
    if s.len() == 0 {
        None
    } else if s.first() == sep {
        Some((Seq::<char>::empty(), s.drop_first()))
    } else {
        match sides(s.drop_first(), sep) {
            Some((left, right)) => Some((seq![s.first()] + left, right)),
            None => None,
        }
    }
}

/// `part` stands somewhere in `s`.
pub open spec fn has_part(s: Seq<char>, part: Seq<char>) -> bool {
    exists|i: int|
        0 <= i <= s.len() - part.len() && #[trigger] s.subrange(i, i + part.len()) == part
}

/// `s` with each occurrence of `part` replaced, looking from left to right and never twice at
/// the same character.
pub open spec fn replaced(s: Seq<char>, part: Seq<char>, with: Seq<char>) -> Seq<char>
    decreases s.len(),
{
    if part.len() == 0 || s.len() < part.len() {
        s
    } else if s.take(part.len() as int) == part {
        with + replaced(s.skip(part.len() as int), part, with)
    } else {
        seq![s.first()] + replaced(s.drop_first(), part, with)
    }
}

/// A line of `n` equals signs.
pub open spec fn ruler(n: nat) -> Seq<char> {
    Seq::new(n, |i: int| '=')
}

/// What `str::to_uppercase` makes of a text.
pub uninterp spec fn uppercase(s: Seq<char>) -> Seq<char>;

/// What `format!("{:?}", ..)` makes of a list of texts.
pub uninterp spec fn debug_list(list: Seq<Seq<char>>) -> Seq<char>;

/// `String::push`: appends the given `char` to the end of the text.
#[verifier::external_body]
pub(crate) fn push_char(s: &mut String, c: char)
    ensures
        final(s)@ == old(s)@.push(c),
{
    s.push(c)
}

/// `char::is_whitespace`: whether the character has the `White_Space` property, which Unicode
/// gives to the characters that `white_space` lists.
#[verifier::external_body]
pub(crate) fn is_whitespace(c: char) -> (r: bool)
    ensures
        r == white_space(c),
{
    c.is_whitespace()
}

/// `str::to_uppercase`: the result is a function of the text, named `uppercase`.
#[verifier::external_body]
pub(crate) fn to_uppercase(s: &str) -> (r: String)
    ensures
        r@ == uppercase(s@),
{
    s.to_uppercase()
}

/// The `Debug` form of a list of texts: the result is a function of the texts, named
/// `debug_list`.
#[verifier::external_body]
pub(crate) fn format_list(list: &Vec<String>) -> (r: String)
    ensures
        r@ == debug_list(list.deep_view()),
{
    format!("{:?}", list)
}

/// Writes a number in base ten.
pub fn decimal_text(n: u64) -> (r: String)
    ensures
        r@ == decimal(n as nat),
    decreases n,
{
    let last: char = (48 + (n % 10) as u8) as char;
    let mut s: String = if n < 10 {
        String::new()
    } else {
        decimal_text(n / 10)
    };
    push_char(&mut s, last);
    proof {
        if n < 10 {
            assert(s@ =~= seq![digit(n as nat)]);
        }
    }
    s
}

/// The characters of a text, one by one.
pub fn chars_of(s: &str) -> (r: Vec<char>)
    ensures
        r@ == s@,
{
    let mut v: Vec<char> = Vec::new();
    for c in it: s.chars()
        invariant
            it.seq() == s@,
            v@ == s@.take(it.index()),
    {
        v.push(c);
    }
    v
}

/// The characters of `v` from `from` up to `to` as a text.
pub fn text_of(v: &Vec<char>, from: usize, to: usize) -> (r: String)
    requires
        from <= to <= v.len(),
    ensures
        r@ == v@.subrange(from as int, to as int),
{
    let mut s: String = String::new();
    let mut i: usize = from;
    while i < to
        invariant
            from <= i <= to <= v.len(),
            s@ == v@.subrange(from as int, i as int),
        decreases to - i,
    {
        push_char(&mut s, v[i]);
        assert(v@.subrange(from as int, i + 1) =~= v@.subrange(from as int, i as int).push(
            v@[i as int],
        ));
        i += 1;
    }
    s
}

/// Whether two texts hold the same characters.
pub fn same_text(a: &String, b: &str) -> (r: bool)
    ensures
        r == (a@ == b@),
{
    *a == b.to_string()
}

/// Removes the white space at the two ends.
pub fn trim(s: &str) -> (r: String)
    ensures
        r@ == trimmed(s@),
{
    let v: Vec<char> = chars_of(s);
    let n: usize = v.len();
    let mut i: usize = 0;
    assert(v@.subrange(0, n as int) =~= s@);
    while i < n && is_whitespace(v[i])
        invariant
            i <= n == v.len(),
            trimmed(s@) == trimmed(v@.subrange(i as int, n as int)),
        decreases n - i,
    {
        assert(v@.subrange(i as int, n as int).drop_first() =~= v@.subrange(i + 1, n as int));
        i += 1;
    }
    let mut j: usize = n;
    while i < j && is_whitespace(v[j - 1])
        invariant
            i <= j <= n == v.len(),
            i < n ==> !white_space(v@[i as int]),
            trimmed(s@) == trimmed(v@.subrange(i as int, j as int)),
        decreases j,
    {
        assert(v@.subrange(i as int, j as int).drop_last() =~= v@.subrange(i as int, j - 1));
        j -= 1;
    }
    text_of(&v, i, j)
}

/// Splits a text at each `sep`.
pub fn split(s: &str, sep: char) -> (r: Vec<String>)
    ensures
        r.deep_view() == pieces(s@, sep),
{
    let v: Vec<char> = chars_of(s);
    let mut done: Vec<String> = Vec::new();
    let mut current: String = String::new();
    let mut i: usize = 0;
    assert(v@.take(0) =~= Seq::<char>::empty());
    assert(done.deep_view().push(current@) =~= pieces(v@.take(0), sep));
    while i < v.len()
        invariant
            i <= v.len(),
            done.deep_view().push(current@) == pieces(v@.take(i as int), sep),
        decreases v.len() - i,
    {
        let c: char = v[i];
        let ghost before = done.deep_view().push(current@);
        assert(v@.take(i + 1).drop_last() =~= v@.take(i as int));
        assert(before.drop_last() =~= done.deep_view());
        if c == sep {
            done.push(current);
            current = String::new();
            assert(done.deep_view() =~= before);
        } else {
            push_char(&mut current, c);
        }
        i += 1;
    }
    assert(v@.take(i as int) =~= s@);
    let ghost last = current@;
    let ghost front = done.deep_view();
    done.push(current);
    assert(done.deep_view() =~= front.push(last));
    done
}

proof fn lemma_sides(s: Seq<char>, sep: char, i: int)
    requires
        0 <= i <= s.len(),
        forall|k: int| 0 <= k < i ==> s[k] != sep,
        i < s.len() ==> s[i] == sep,
    ensures
        sides(s, sep) == if i < s.len() {
            Some((s.take(i), s.skip(i + 1)))
        } else {
            None
        },
    decreases s.len(),
{
    if s.len() > 0 {
        if i == 0 {
            assert(s.take(0) =~= Seq::<char>::empty());
            assert(s.skip(1) =~= s.drop_first());
        } else {
            let rest = s.drop_first();
            lemma_sides(rest, sep, i - 1);
            assert(seq![s.first()] + rest.take(i - 1) =~= s.take(i));
            if i < s.len() {
                assert(rest.skip(i) =~= s.skip(i + 1));
            }
        }
    }
}

/// Splits a text at its first `sep`.
pub fn split_once(s: &str, sep: char) -> (r: Option<(String, String)>)
    ensures
        r.deep_view() == sides(s@, sep),
{
    let v: Vec<char> = chars_of(s);
    let n: usize = v.len();
    let mut i: usize = 0;
    while i < n && v[i] != sep
        invariant
            i <= n == v.len(),
            forall|k: int| 0 <= k < i ==> v@[k] != sep,
        decreases n - i,
    {
        i += 1;
    }
    proof {
        lemma_sides(v@, sep, i as int);
    }
    if i < n {
        let left: String = text_of(&v, 0, i);
        let right: String = text_of(&v, i + 1, n);
        assert(left@ =~= v@.take(i as int));
        assert(right@ =~= v@.skip(i + 1));
        Some((left, right))
    } else {
        None
    }
}

/// Whether `part` stands in `v` at position `i`.
fn stands_at(v: &Vec<char>, part: &Vec<char>, i: usize) -> (r: bool)
    requires
        i <= v.len(),
    ensures
        r == (i + part.len() <= v.len() && v@.subrange(i as int, i + part.len()) == part@),
{
    if v.len() - i < part.len() {
        return false;
    }
    let mut k: usize = 0;
    while k < part.len()
        invariant
            i + part.len() <= v.len(),
            k <= part.len(),
            forall|j: int| 0 <= j < k ==> v@[i + j] == part@[j],
        decreases part.len() - k,
    {
        if v[i + k] != part[k] {
            assert(v@.subrange(i as int, i + part.len())[k as int] != part@[k as int]);
            return false;
        }
        k += 1;
    }
    assert(v@.subrange(i as int, i + part.len()) =~= part@);
    true
}

/// Whether `part` stands somewhere in `s`.
pub fn contains(s: &str, part: &str) -> (r: bool)
    ensures
        r == has_part(s@, part@),
{
    let v: Vec<char> = chars_of(s);
    let p: Vec<char> = chars_of(part);
    let mut i: usize = 0;
    while i < v.len() && p.len() <= v.len() - i
        invariant
            v@ == s@,
            p@ == part@,
            i <= v.len(),
            forall|k: int|
                0 <= k < i && k <= v.len() - p.len() ==> #[trigger] s@.subrange(k, k + p.len())
                    != part@,
        decreases v.len() - i,
    {
        if stands_at(&v, &p, i) {
            return true;
        }
        i += 1;
    }
    stands_at(&v, &p, i)
}

/// Whether a text ends with `suffix`.
pub fn ends_with(s: &str, suffix: &str) -> (r: bool)
    ensures
        r == suffix@.is_suffix_of(s@),
{
    let v: Vec<char> = chars_of(s);
    let p: Vec<char> = chars_of(suffix);
    if v.len() < p.len() {
        return false;
    }
    let r: bool = stands_at(&v, &p, v.len() - p.len());
    r
}

/// Replaces each occurrence of `part`.
pub fn replace(s: &str, part: &str, with: &str) -> (r: String)
    ensures
        r@ == replaced(s@, part@, with@),
{
    let v: Vec<char> = chars_of(s);
    let p: Vec<char> = chars_of(part);
    if p.len() == 0 {
        return s.to_string();
    }
    let mut out: String = String::new();
    let mut i: usize = 0;
    assert(v@.skip(0) =~= s@);
    assert(out@ + replaced(v@.skip(0), part@, with@) =~= replaced(s@, part@, with@));
    while i < v.len() && p.len() <= v.len() - i
        invariant
            p@ == part@,
            p.len() > 0,
            i <= v.len(),
            out@ + replaced(v@.skip(i as int), part@, with@) == replaced(s@, part@, with@),
        decreases v.len() - i,
    {
        let ghost rest = v@.skip(i as int);
        assert(rest.take(p.len() as int) =~= v@.subrange(i as int, i + p.len()));
        let ghost before = out@;
        if stands_at(&v, &p, i) {
            out.append(with);
            assert(rest.skip(p.len() as int) =~= v@.skip(i + p.len()));
            i += p.len();
            assert(out@ + replaced(v@.skip(i as int), part@, with@) =~= before + (with@
                + replaced(v@.skip(i as int), part@, with@)));
        } else {
            push_char(&mut out, v[i]);
            assert(rest.drop_first() =~= v@.skip(i + 1));
            i += 1;
            assert(out@ + replaced(v@.skip(i as int), part@, with@) =~= before + (seq![
                rest.first(),
            ] + replaced(v@.skip(i as int), part@, with@)));
        }
    }
    let end: String = text_of(&v, i, v.len());
    assert(end@ =~= v@.skip(i as int));
    out.append(end.as_str());
    out
}

/// Writes a line of `n` equals signs.
pub fn ruler_text(n: usize) -> (r: String)
    ensures
        r@ == ruler(n as nat),
{
    let mut s: String = String::new();
    let mut i: usize = 0;
    while i < n
        invariant
            i <= n,
            s@ == ruler(i as nat),
        decreases n - i,
    {
        push_char(&mut s, '=');
        i += 1;
        assert(s@ =~= ruler(i as nat));
    }
    s
}

/// Copies a list of texts.
pub fn copy_texts(list: &Vec<String>) -> (r: Vec<String>)
    ensures
        r.deep_view() == list.deep_view(),
{
    let mut out: Vec<String> = Vec::new();
    let mut i: usize = 0;
    while i < list.len()
        invariant
            i <= list.len(),
            out.deep_view() == list.deep_view().take(i as int),
        decreases list.len() - i,
    {
        let ghost before = out.deep_view();
        out.push(list[i].clone());
        i += 1;
        assert(out.deep_view() =~= before.push(list.deep_view()[i - 1]));
        assert(out.deep_view() =~= list.deep_view().take(i as int));
    }
    assert(list.deep_view().take(i as int) =~= list.deep_view());
    out
}

/// Different numbers are written differently.
pub proof fn law_decimal_is_unique(a: nat, b: nat)
    requires
        a != b,
    ensures
        decimal(a) != decimal(b),
    decreases a + b,
{
    lemma_decimal_len(a);
    lemma_decimal_len(b);
    if decimal(a) == decimal(b) {
        assert(decimal(a).last() == digit(a % 10));
        assert(decimal(b).last() == digit(b % 10));
        if a >= 10 && b >= 10 {
            assert(decimal(a).drop_last() =~= decimal(a / 10));
            assert(decimal(b).drop_last() =~= decimal(b / 10));
            law_decimal_is_unique(a / 10, b / 10);
        }
    }
}

proof fn lemma_decimal_len(n: nat)
    ensures
        decimal(n).len() >= 1,
        n >= 10 ==> decimal(n).len() >= 2,
    decreases n,
{
    if n >= 10 {
        lemma_decimal_len(n / 10);
    }
}

} // verus!
