//! Pieces of source text: decimal numbers, string literals, joined lists.

use vstd::prelude::*;

verus! {

/// The character of the decimal digit `d`.
pub open spec fn digit_char(d: nat) -> char {
    (d + 48) as char
}

/// The decimal digits of `n`, without leading zeros.
pub open spec fn decimal(n: nat) -> Seq<char>
    decreases n,
{
    if n < 10 {
        seq![digit_char(n)]
    } else {
        decimal(n / 10).push(digit_char(n % 10))
    }
}

/// The parts separated by `sep`.
pub open spec fn join(parts: Seq<Seq<char>>, sep: Seq<char>) -> Seq<char>
    decreases parts.len(),
{
    if parts.len() == 0 {
        Seq::empty()
    } else if parts.len() == 1 {
        parts[0]
    } else {
        join(parts.drop_last(), sep) + sep + parts.last()
    }
}

/// Each part followed by a line break.
pub open spec fn lines(parts: Seq<Seq<char>>) -> Seq<char>
    decreases parts.len(),
{
    if parts.len() == 0 {
        Seq::empty()
    } else {
        lines(parts.drop_last()) + parts.last() + "\n"@
    }
}

/// What `char::escape_debug` yields for `c`: the escape code of `c` as it
/// would be written in a literal.
pub uninterp spec fn escaped_char(c: char) -> Seq<char>;

/// Calls `char::escape_debug` and collects the characters it yields. The
/// contract names them `escaped_char(c)` and claims nothing more of them.
#[verifier::external_body]
fn escape_debug_of(c: char) -> (r: String)
    ensures
        r@ == escaped_char(c),
{
    c.escape_debug().to_string()
}

/// Whether `c` is an octal digit.
pub open spec fn octal_digit(c: char) -> bool {
    '0' <= c && c <= '7'
}

/// How the `i`-th character of `s` is written inside a string literal: a
/// NUL as `\0`, or as `\x00` when an octal digit follows it; a single quote
/// as itself; any other character by its debug escape.
pub open spec fn escape_at(s: Seq<char>, i: int) -> Seq<char> {
    if s[i] == '\0' {
        if i + 1 < s.len() && octal_digit(s[i + 1]) {
            "\\x00"@
        } else {
            "\\0"@
        }
    } else if s[i] == '\'' {
        seq!['\'']
    } else {
        escaped_char(s[i])
    }
}

/// The escaped characters of `s` from position `i` on.
pub open spec fn escaped_from(s: Seq<char>, i: int) -> Seq<char>
    decreases s.len() - i,
{
    if i < 0 || i >= s.len() {
        Seq::empty()
    } else {
        escape_at(s, i) + escaped_from(s, i + 1)
    }
}

/// The string literal whose value is `s`, between double quotes.
pub open spec fn quoted(s: Seq<char>) -> Seq<char> {
    "\""@ + escaped_from(s, 0) + "\""@
}

/// Writes `s` as a string literal.
pub fn string_literal(s: &str) -> (r: String)
    ensures
        r@ == quoted(s@),
{
    let mut out = String::from_str("\"");
    let n = s.unicode_len();
    let ghost start = out@;
    for i in 0..n
        invariant
            n == s@.len(),
            start == "\""@,
            out@ + escaped_from(s@, i as int) == start + escaped_from(s@, 0),
    {
        let c = s.get_char(i);
        let ghost before = out@;
        if c == '\0' {
            let next_octal = i + 1 < n && {
                let d = s.get_char(i + 1);
                '0' <= d && d <= '7'
            };
            if next_octal {
                out.append("\\x00");
            } else {
                out.append("\\0");
            }
        } else if c == '\'' {
            push_char(&mut out, c);
        } else {
            let e = escape_debug_of(c);
            out.append(e.as_str());
        }
        assert(out@ =~= before + escape_at(s@, i as int));
        assert(escaped_from(s@, i as int) == escape_at(s@, i as int) + escaped_from(s@, i + 1));
        assert(out@ + escaped_from(s@, i + 1) =~= before + escaped_from(s@, i as int));
    }
    assert(escaped_from(s@, n as int) == Seq::<char>::empty());
    assert(out@ =~= start + escaped_from(s@, 0));
    out.append("\"");
    out
}

/// Calls `String::push`, which appends one character.
#[verifier::external_body]
pub fn push_char(s: &mut String, c: char)
    ensures
        final(s)@ == old(s)@.push(c),
{
    s.push(c)
}

/// Appends the decimal digits of `n` to `out`.
pub fn push_decimal(out: &mut String, n: u64)
    ensures
        final(out)@ == old(out)@ + decimal(n as nat),
    decreases n,
{
    if n >= 10 {
        push_decimal(out, n / 10);
    }
    let d: u8 = (n % 10) as u8;
    push_char(out, (d + 48) as char);
    assert(final(out)@ == old(out)@ + decimal(n as nat)) by {
        assert(n >= 10 ==> decimal(n as nat) == decimal((n / 10) as nat).push(digit_char((n % 10) as nat)));
    }
}

/// The decimal text of `n`.
pub fn decimal_string(n: u64) -> (r: String)
    ensures
        r@ == decimal(n as nat),
{
    let mut out = String::new();
    push_decimal(&mut out, n);
    assert(out@ =~= decimal(n as nat));
    out
}

/// Joins `parts` with `sep` between consecutive parts.
pub fn join_strings(parts: &Vec<String>, sep: &str) -> (r: String)
    ensures
        r@ == join(parts.deep_view(), sep@),
{
    let mut out = String::new();
    let n = parts.len();
    let ghost dv = parts.deep_view();
    for i in 0..n
        invariant
            n == parts.len(),
            dv == parts.deep_view(),
            out@ == join(dv.take(i as int), sep@),
    {
        if i > 0 {
            out.append(sep);
        }
        out.append(parts[i].as_str());
        assert(dv.take(i + 1).drop_last() =~= dv.take(i as int));
        assert(out@ =~= join(dv.take(i + 1), sep@));
    }
    assert(dv.take(n as int) =~= dv);
    out
}

/// Writes each part followed by a line break.
pub fn lines_string(parts: &Vec<String>) -> (r: String)
    ensures
        r@ == lines(parts.deep_view()),
{
    let mut out = String::new();
    let n = parts.len();
    let ghost dv = parts.deep_view();
    for i in 0..n
        invariant
            n == parts.len(),
            dv == parts.deep_view(),
            out@ == lines(dv.take(i as int)),
    {
        out.append(parts[i].as_str());
        out.append("\n");
        assert(dv.take(i + 1).drop_last() =~= dv.take(i as int));
        assert(out@ =~= lines(dv.take(i + 1)));
    }
    assert(dv.take(n as int) =~= dv);
    out
}

} // verus!

verus! {

/// Every number has at least one digit, and numbers from ten on have at least two.
pub proof fn lemma_decimal_len(n: nat)
    ensures
        decimal(n).len() >= 1,
        n >= 10 ==> decimal(n).len() >= 2,
    decreases n,
{
    if n >= 10 {
        lemma_decimal_len(n / 10);
    }
}

/// Distinct numbers have distinct decimal texts.
pub proof fn lemma_decimal_injective(a: nat, b: nat)
    requires
        decimal(a) == decimal(b),
    ensures
        a == b,
    decreases a,
{
    lemma_decimal_len(a);
    lemma_decimal_len(b);
    if a < 10 && b < 10 {
        assert(decimal(a)[0] == digit_char(a));
        assert(decimal(b)[0] == digit_char(b));
    } else if a >= 10 && b >= 10 {
        let (da, db) = (decimal(a), decimal(b));
        assert(da.drop_last() =~= decimal(a / 10));
        assert(db.drop_last() =~= decimal(b / 10));
        assert(da.last() == digit_char(a % 10));
        assert(db.last() == digit_char(b % 10));
        lemma_decimal_injective(a / 10, b / 10);
        assert(a == 10 * (a / 10) + a % 10);
        assert(b == 10 * (b / 10) + b % 10);
    }
}

} // verus!

verus! {

/// Where the `i`-th part starts in `join(parts, sep)`: the lengths of the
/// parts before it, each followed by a separator.
pub open spec fn join_offset(parts: Seq<Seq<char>>, sep: Seq<char>, i: int) -> int
    decreases i,
{
    if i <= 0 {
        0
    } else {
        join_offset(parts, sep, i - 1) + parts[i - 1].len() + sep.len()
    }
}

/// Offsets depend only on the parts before the position.
proof fn lemma_join_offset_prefix(a: Seq<Seq<char>>, b: Seq<Seq<char>>, sep: Seq<char>, i: int)
    requires
        0 <= i <= a.len(),
        i <= b.len(),
        forall|j: int| 0 <= j < i ==> a[j] == b[j],
    ensures
        join_offset(a, sep, i) == join_offset(b, sep, i),
    decreases i,
{
    if i > 0 {
        lemma_join_offset_prefix(a, b, sep, i - 1);
    }
}

/// Offsets grow along the parts.
proof fn lemma_join_offset_mono(parts: Seq<Seq<char>>, sep: Seq<char>, i: int, j: int)
    requires
        0 <= i <= j,
    ensures
        0 <= join_offset(parts, sep, i) <= join_offset(parts, sep, j),
    decreases j,
{
    if j > i {
        lemma_join_offset_mono(parts, sep, i, j - 1);
    } else if i > 0 {
        lemma_join_offset_mono(parts, sep, 0, i - 1);
    }
}

/// The length of joined parts.
proof fn lemma_join_len(parts: Seq<Seq<char>>, sep: Seq<char>)
    requires
        parts.len() > 0,
    ensures
        join(parts, sep).len() == join_offset(parts, sep, parts.len() - 1) + parts[parts.len()
            - 1].len(),
    decreases parts.len(),
{
    let n = parts.len();
    if n >= 2 {
        let p = parts.drop_last();
        lemma_join_len(p, sep);
        lemma_join_offset_prefix(parts, p, sep, n - 2);
    }
}

/// Where the `i`-th part stands in joined parts.
proof fn lemma_join_part(parts: Seq<Seq<char>>, sep: Seq<char>, i: int)
    requires
        0 <= i < parts.len(),
    ensures
        join(parts, sep).subrange(join_offset(parts, sep, i), join_offset(parts, sep, i)
            + parts[i].len()) == parts[i],
    decreases parts.len(),
{
    let n = parts.len();
    let whole = join(parts, sep);
    let a = join_offset(parts, sep, i);
    if n == 1 {
        assert(whole.subrange(0, parts[0].len() as int) =~= parts[0]);
    } else {
        let p = parts.drop_last();
        let jp = join(p, sep);
        assert(whole == jp + sep + parts[n - 1]);
        lemma_join_len(p, sep);
        lemma_join_offset_prefix(parts, p, sep, i);
        if i < n - 1 {
            lemma_join_part(p, sep, i);
            if i + 1 <= n - 2 {
                lemma_join_offset_mono(p, sep, i + 1, n - 2);
            }
            lemma_join_offset_mono(p, sep, 0, i);
            assert(whole.subrange(a, a + parts[i].len()) =~= jp.subrange(a, a + p[i].len()));
        } else {
            lemma_join_offset_prefix(parts, p, sep, n - 2);
            assert(whole.subrange(a, a + parts[i].len()) =~= parts[n - 1]);
        }
    }
}

/// What stands between the `i`-th and the next part of joined parts.
proof fn lemma_join_sep(parts: Seq<Seq<char>>, sep: Seq<char>, i: int)
    requires
        0 <= i < parts.len() - 1,
    ensures
        join(parts, sep).subrange(join_offset(parts, sep, i) + parts[i].len(), join_offset(
            parts,
            sep,
            i + 1,
        )) == sep,
    decreases parts.len(),
{
    let n = parts.len();
    let whole = join(parts, sep);
    let p = parts.drop_last();
    let jp = join(p, sep);
    assert(whole == jp + sep + parts[n - 1]);
    lemma_join_len(p, sep);
    lemma_join_offset_prefix(parts, p, sep, i + 1);
    let a = join_offset(parts, sep, i) + parts[i].len();
    let b = join_offset(parts, sep, i + 1);
    if i < n - 2 {
        lemma_join_sep(p, sep, i);
        lemma_join_offset_mono(p, sep, i + 1, n - 2);
        lemma_join_offset_mono(p, sep, 0, i);
        assert(whole.subrange(a, b) =~= jp.subrange(a, b));
    } else {
        assert(whole.subrange(a, b) =~= sep);
    }
}

/// Joined parts start with the first part.
pub proof fn lemma_join_first(parts: Seq<Seq<char>>, sep: Seq<char>)
    requires
        parts.len() > 0,
    ensures
        parts[0].len() <= join(parts, sep).len(),
        join(parts, sep).subrange(0, parts[0].len() as int) == parts[0],
{
    lemma_join_len(parts, sep);
    lemma_join_part(parts, sep, 0);
    if parts.len() > 1 {
        lemma_join_offset_mono(parts, sep, 1, parts.len() - 1);
    }
}

/// The layout of joined parts: the `i`-th part stands at its offset, in
/// order, with exactly `sep` between consecutive parts and nothing else.
pub proof fn lemma_join_layout(parts: Seq<Seq<char>>, sep: Seq<char>)
    ensures
        parts.len() == 0 ==> join(parts, sep) == Seq::<char>::empty(),
        parts.len() > 0 ==> join(parts, sep).len() == join_offset(parts, sep, parts.len() - 1)
            + parts[parts.len() - 1].len(),
        forall|i: int|
            0 <= i < parts.len() ==> join(parts, sep).subrange(
                join_offset(parts, sep, i),
                join_offset(parts, sep, i) + parts[i].len(),
            ) == #[trigger] parts[i],
        forall|i: int|
            0 <= i < parts.len() - 1 ==> join(parts, sep).subrange(
                join_offset(parts, sep, i) + parts[i].len(),
                #[trigger] join_offset(parts, sep, i + 1),
            ) == sep,
{
    if parts.len() > 0 {
        lemma_join_len(parts, sep);
    }
    assert forall|i: int| 0 <= i < parts.len() implies join(parts, sep).subrange(
        join_offset(parts, sep, i),
        join_offset(parts, sep, i) + parts[i].len(),
    ) == #[trigger] parts[i] by {
        lemma_join_part(parts, sep, i);
    }
    assert forall|i: int| 0 <= i < parts.len() - 1 implies join(parts, sep).subrange(
        join_offset(parts, sep, i) + parts[i].len(),
        #[trigger] join_offset(parts, sep, i + 1),
    ) == sep by {
        lemma_join_sep(parts, sep, i);
    }
}

} // verus!

verus! {

/// The number that a sequence of decimal digits denotes.
pub open spec fn digits_value(s: Seq<char>) -> int
    decreases s.len(),
{
    if s.len() == 0 {
        0
    } else {
        digits_value(s.drop_last()) * 10 + (s.last() as int - '0' as int)
    }
}

/// The decimal text of `n` is made of digits `0` to `9`, denotes `n`, and
/// starts with `0` only when it is `0` itself.
pub proof fn lemma_decimal_value(n: nat)
    ensures
        forall|i: int| 0 <= i < decimal(n).len() ==> '0' <= #[trigger] decimal(n)[i] <= '9',
        digits_value(decimal(n)) == n,
        decimal(n)[0] == '0' ==> n == 0,
    decreases n,
{
    lemma_decimal_len(n);
    let d = decimal(n);
    assert(d.last() == digit_char(n % 10));
    assert(digit_char(n % 10) as int == n % 10 + 48);
    assert('0' as int == 48);
    if n < 10 {
        assert(d.drop_last() =~= Seq::<char>::empty());
        assert(digits_value(d) == digits_value(d.drop_last()) * 10 + (d.last() as int - '0' as int));
    } else {
        lemma_decimal_value(n / 10);
        lemma_decimal_len(n / 10);
        assert(d.drop_last() =~= decimal(n / 10));
        assert(digits_value(d) == digits_value(d.drop_last()) * 10 + (d.last() as int - '0' as int));
        assert(d[0] == decimal(n / 10)[0]);
        assert(n == (n / 10) * 10 + n % 10);
    }
}

/// Each part followed by a line break, in order.
pub proof fn lemma_lines_order(parts: Seq<Seq<char>>)
    ensures
        lines(parts) == join(
            Seq::new(parts.len(), |i: int| parts[i] + "\n"@),
            Seq::<char>::empty(),
        ),
    decreases parts.len(),
{
    let items = Seq::new(parts.len(), |i: int| parts[i] + "\n"@);
    if parts.len() >= 1 {
        let prev = parts.drop_last();
        lemma_lines_order(prev);
        let prev_items = Seq::new(prev.len(), |i: int| prev[i] + "\n"@);
        assert(items.drop_last() =~= prev_items);
        if parts.len() == 1 {
            assert(lines(parts) =~= items[0]);
        } else {
            assert(join(items, Seq::<char>::empty()) =~= join(prev_items, Seq::<char>::empty())
                + items[parts.len() - 1]);
            assert(lines(parts) =~= join(items, Seq::<char>::empty()));
        }
    }
}

/// A string literal opens and closes with a double quote.
pub proof fn lemma_quoted_delimiters(s: Seq<char>)
    ensures
        quoted(s).len() >= 2,
        quoted(s)[0] == '"',
        quoted(s)[quoted(s).len() - 1] == '"',
{
    reveal_strlit("\"");
}

} // verus!
