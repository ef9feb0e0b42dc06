//! Sequences of characters: decimal numerals, padding to a width, trimming
//! and splitting.
use vstd::prelude::*;
use vstd::string::*;

verus! {

/// The character that writes the digit `d`, for `d` from 0 to 9.
pub open spec fn digit(d: nat) -> char {
    if d == 0 {
        '0'
    } else if d == 1 {
        '1'
    } else if d == 2 {
        '2'
    } else if d == 3 {
        '3'
    } else if d == 4 {
        '4'
    } else if d == 5 {
        '5'
    } else if d == 6 {
        '6'
    } else if d == 7 {
        '7'
    } else if d == 8 {
        '8'
    } else {
        '9'
    }
}

/// The decimal numeral of `n`: most significant digit first, no leading
/// zero except for zero itself.
pub open spec fn decimal(n: nat) -> Seq<char>
    decreases n,
{
    if n < 10 {
        seq![digit(n)]
    } else {
        decimal(n / 10).push(digit(n % 10))
    }
}

/// The decimal numeral of an integer: a minus sign in front of a negative
/// one, no sign otherwise.
pub open spec fn signed_decimal(n: int) -> Seq<char> {
    if n < 0 {
        seq!['-'] + decimal((-n) as nat)
    } else {
        decimal(n as nat)
    }
}

/// `n` spaces.
pub open spec fn spaces(n: nat) -> Seq<char> {
    Seq::new(n, |i: int| ' ')
}

/// How many spaces `s` lacks to fill `width` columns.
pub open spec fn padding(s: Seq<char>, width: nat) -> nat {
    if s.len() < width {
        (width - s.len()) as nat
    } else {
        0
    }
}

/// `s` at the left of a field of `width` columns. A longer `s` is kept whole.
pub open spec fn left_aligned(s: Seq<char>, width: nat) -> Seq<char> {
    s + spaces(padding(s, width))
}

/// `s` in the middle of a field of `width` columns. Where the padding is
/// odd, the extra space stands on the right. A longer `s` is kept whole.
pub open spec fn centered(s: Seq<char>, width: nat) -> Seq<char> {
    spaces(padding(s, width) / 2) + s + spaces((padding(s, width) - padding(s, width) / 2) as nat)
}

/// An aligned text fills the width exactly, unless the text alone is
/// longer.
pub proof fn lemma_aligned_len(s: Seq<char>, width: nat)
    ensures
        left_aligned(s, width).len() == if s.len() < width {
            width
        } else {
            s.len()
        },
        centered(s, width).len() == left_aligned(s, width).len(),
{
}

/// The digit `d` as a string.
fn digit_str(d: u8) -> (r: &'static str)
    requires
        d < 10,
    ensures
        r@ == seq![digit(d as nat)],
{
    proof {
        reveal_strlit("0");
        reveal_strlit("1");
        reveal_strlit("2");
        reveal_strlit("3");
        reveal_strlit("4");
        reveal_strlit("5");
        reveal_strlit("6");
        reveal_strlit("7");
        reveal_strlit("8");
        reveal_strlit("9");
    }
    let r: &'static str = match d {
        0 => "0",
        1 => "1",
        2 => "2",
        3 => "3",
        4 => "4",
        5 => "5",
        6 => "6",
        7 => "7",
        8 => "8",
        _ => "9",
    };
    assert(r@ =~= seq![digit(d as nat)]);
    r
}

/// Appends the decimal numeral of `n` to `out`.
pub fn push_decimal(out: &mut String, n: u128)
    ensures
        final(out)@ == old(out)@ + decimal(n as nat),
    decreases n,
{
    if n >= 10 {
        push_decimal(out, n / 10);
    }
    let d: u8 = (n % 10) as u8;
    out.append(digit_str(d));
    assert(final(out)@ =~= old(out)@ + decimal(n as nat));
}

/// Appends the decimal numeral of `n`, with a minus sign if it is negative.
pub fn push_signed_decimal(out: &mut String, n: i128)
    ensures
        final(out)@ == old(out)@ + signed_decimal(n as int),
{
    if n < 0 {
        proof {
            reveal_strlit("-");
        }
        out.append("-");
        let magnitude: u128 = (-(n + 1)) as u128 + 1;
        push_decimal(out, magnitude);
        assert(final(out)@ =~= old(out)@ + signed_decimal(n as int));
    } else {
        push_decimal(out, n as u128);
    }
}

/// Appends `n` spaces to `out`.
pub fn push_spaces(out: &mut String, n: usize)
    ensures
        final(out)@ == old(out)@ + spaces(n as nat),
{
    let mut i: usize = 0;
    while i < n
        invariant
            i <= n,
            out@ == old(out)@ + spaces(i as nat),
        decreases n - i,
    {
        proof {
            reveal_strlit(" ");
        }
        out.append(" ");
        i = i + 1;
        assert(out@ =~= old(out)@ + spaces(i as nat));
    }
}

/// The characters of `s`, one by one.
pub fn chars_of(s: &str) -> (out: Vec<char>)
    ensures
        out@ == s@,
{
    let mut out: Vec<char> = Vec::new();
    for c in it: s.chars()
        invariant
            it.seq() == s@,
            out@ == it.seq().take(it.index() as int),
    {
        out.push(c);
        assert(out@ =~= it.seq().take(it.index() + 1));
    }
    assert(out@ =~= s@);
    out
}

/// Whether `c` is white space: one of the characters that Unicode lists as
/// `White_Space`.
pub open spec fn is_space(c: char) -> bool {
    let u = c as u32;
    (0x09 <= u <= 0x0D) || u == 0x20 || u == 0x85 || u == 0xA0 || u == 0x1680 || (0x2000 <= u
        <= 0x200A) || u == 0x2028 || u == 0x2029 || u == 0x202F || u == 0x205F || u == 0x3000
}

/// Whether `c` is white space.
pub fn is_whitespace(c: char) -> (r: bool)
    ensures
        r == is_space(c),
{
    let u: u32 = c as u32;
    (0x09 <= u && u <= 0x0D) || u == 0x20 || u == 0x85 || u == 0xA0 || u == 0x1680 || (0x2000 <= u
        && u <= 0x200A) || u == 0x2028 || u == 0x2029 || u == 0x202F || u == 0x205F || u == 0x3000
}

/// `s` without the white space at its start.
pub open spec fn trim_start(s: Seq<char>) -> Seq<char>
    decreases s.len(),
{
    if s.len() > 0 && is_space(s[0]) {
        trim_start(s.drop_first())
    } else {
        s
    }
}

/// `s` without the white space at its end.
pub open spec fn trim_end(s: Seq<char>) -> Seq<char>
    decreases s.len(),
{
    if s.len() > 0 && is_space(s.last()) {
        trim_end(s.drop_last())
    } else {
        s
    }
}

/// `s` without the white space at either end.
pub open spec fn trimmed(s: Seq<char>) -> Seq<char> {
    trim_end(trim_start(s))
}

/// The bounds of `chars[from..to]` without the white space at either end.
pub fn trim_range(chars: &Vec<char>, from: usize, to: usize) -> (r: (usize, usize))
    requires
        from <= to <= chars.len(),
    ensures
        from <= r.0 <= r.1 <= to,
        chars@.subrange(r.0 as int, r.1 as int) == trimmed(chars@.subrange(from as int, to as int)),
{
    let mut a: usize = from;
    while a < to && is_whitespace(chars[a])
        invariant
            from <= a <= to <= chars.len(),
            trim_start(chars@.subrange(from as int, to as int)) == trim_start(
                chars@.subrange(a as int, to as int),
            ),
        decreases to - a,
    {
        assert(chars@.subrange(a as int, to as int).drop_first() =~= chars@.subrange(
            a + 1,
            to as int,
        ));
        a = a + 1;
    }
    let mut b: usize = to;
    while b > a && is_whitespace(chars[b - 1])
        invariant
            a <= b <= to <= chars.len(),
            trim_end(chars@.subrange(a as int, to as int)) == trim_end(
                chars@.subrange(a as int, b as int),
            ),
        decreases b - a,
    {
        assert(chars@.subrange(a as int, b as int).drop_last() =~= chars@.subrange(
            a as int,
            b - 1,
        ));
        b = b - 1;
    }
    (a, b)
}

/// Where `c` first stands in `s`; the length of `s` if it stands nowhere.
pub open spec fn position(s: Seq<char>, c: char) -> nat
    decreases s.len(),
{
    if s.len() == 0 || s[0] == c {
        0
    } else {
        1 + position(s.drop_first(), c)
    }
}

/// `position` is the first place at which `c` stands.
pub proof fn lemma_position(s: Seq<char>, c: char, k: int)
    requires
        0 <= k <= s.len(),
        forall|j: int| 0 <= j < k ==> s[j] != c,
        k < s.len() ==> s[k] == c,
    ensures
        position(s, c) == k,
    decreases s.len(),
{
    if k > 0 {
        let rest = s.drop_first();
        assert forall|j: int| 0 <= j < k - 1 implies rest[j] != c by {
            assert(rest[j] == s[j + 1]);
        }
        lemma_position(rest, c, k - 1);
    }
}

/// What `position` is: no `c` stands before it, and unless it is the
/// length of `s`, `c` stands there.
pub proof fn lemma_position_first(s: Seq<char>, c: char)
    ensures
        position(s, c) <= s.len(),
        forall|j: int| 0 <= j < position(s, c) ==> s[j] != c,
        position(s, c) < s.len() ==> s[position(s, c) as int] == c,
    decreases s.len(),
{
    if s.len() > 0 && s[0] != c {
        let rest = s.drop_first();
        lemma_position_first(rest, c);
        assert forall|j: int| 0 <= j < position(s, c) implies s[j] != c by {
            if j > 0 {
                assert(s[j] == rest[j - 1]);
            }
        }
    }
}

/// Where `c` first stands in `chars[from..]`, counted from the start of
/// `chars`; the length of `chars` if it stands nowhere there.
pub fn find_char(chars: &Vec<char>, from: usize, c: char) -> (k: usize)
    requires
        from <= chars.len(),
    ensures
        from <= k <= chars.len(),
        k == from + position(chars@.skip(from as int), c),
{
    let mut k: usize = from;
    while k < chars.len() && chars[k] != c
        invariant
            from <= k <= chars.len(),
            forall|j: int| from <= j < k ==> chars[j] != c,
        decreases chars.len() - k,
    {
        k = k + 1;
    }
    proof {
        lemma_position(chars@.skip(from as int), c, k - from);
    }
    k
}

/// The lines of `s`: the pieces between its line feeds. After a final line
/// feed comes one more, empty line.
pub open spec fn lines(s: Seq<char>) -> Seq<Seq<char>>
    decreases s.len(),
{
    let k = position(s, '\n') as int;
    if k >= s.len() {
        seq![s]
    } else {
        seq![s.take(k)] + lines(s.skip(k + 1))
    }
}

/// A line feed at the end of `s` adds one empty line to its lines.
pub proof fn lemma_lines_final_line_feed(s: Seq<char>)
    ensures
        lines(s.push('\n')) == lines(s).push(Seq::empty()),
    decreases s.len(),
{
    let fed = s.push('\n');
    let k = position(s, '\n') as int;
    lemma_position_first(s, '\n');
    lemma_position(fed, '\n', k);
    if k < s.len() {
        assert(fed.take(k) =~= s.take(k));
        assert(fed.skip(k + 1) =~= s.skip(k + 1).push('\n'));
        lemma_lines_final_line_feed(s.skip(k + 1));
        assert(seq![s.take(k)] + lines(s.skip(k + 1)).push(Seq::empty()) =~= (seq![s.take(k)]
            + lines(s.skip(k + 1))).push(Seq::empty()));
    } else {
        assert(fed.take(k) =~= s);
        assert(fed.skip(k + 1) =~= Seq::<char>::empty());
        assert(lines(Seq::<char>::empty()) =~= seq![Seq::<char>::empty()]);
        assert(seq![s] + seq![Seq::<char>::empty()] =~= seq![s].push(Seq::empty()));
    }
}

/// What each string of `v` holds.
pub open spec fn texts(v: Seq<String>) -> Seq<Seq<char>> {
    v.map_values(|s: String| s@)
}

/// Splits `block` at its line feeds.
pub fn split_lines(block: &str) -> (out: Vec<String>)
    ensures
        texts(out@) == lines(block@),
{
    let chars: Vec<char> = chars_of(block);
    let mut out: Vec<String> = Vec::new();
    let mut start: usize = 0;
    proof {
        assert(block@.skip(0) =~= block@);
        assert(texts(out@) + lines(block@) =~= lines(block@));
    }
    loop
        invariant_except_break
            lines(block@) == texts(out@) + lines(block@.skip(start as int)),
        invariant
            chars@ == block@,
            start <= chars.len(),
        ensures
            texts(out@) == lines(block@),
        decreases chars.len() - start,
    {
        let end: usize = find_char(&chars, start, '\n');
        let line: String = String::from_str(block.substring_char(start, end));
        proof {
            let rest = block@.skip(start as int);
            assert(rest.take(end - start) =~= line@);
            assert(texts(out@.push(line)) =~= texts(out@).push(line@));
            if end < chars.len() {
                assert(rest.skip(end - start + 1) =~= block@.skip(end + 1));
                assert(texts(out@).push(line@) + lines(block@.skip(end + 1)) =~= texts(out@) + (
                seq![line@] + lines(block@.skip(end + 1))));
            } else {
                assert(rest =~= line@);
                assert(texts(out@).push(line@) =~= texts(out@) + seq![line@]);
            }
        }
        out.push(line);
        if end >= chars.len() {
            break;
        }
        start = end + 1;
    }
    out
}

} // verus!
