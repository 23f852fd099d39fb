use vstd::prelude::*;
use vstd::string::*;

verus! {

/// The characters that count as white space when text is trimmed: the
/// code points that carry the Unicode property `White_Space`.
pub open spec fn whitespace(c: char) -> bool {
    ||| '\u{9}' <= c <= '\u{d}'
    ||| c == ' '
    ||| c == '\u{85}'
    ||| c == '\u{a0}'
    ||| c == '\u{1680}'
    ||| '\u{2000}' <= c <= '\u{200a}'
    ||| c == '\u{2028}'
    ||| c == '\u{2029}'
    ||| c == '\u{202f}'
    ||| c == '\u{205f}'
    ||| c == '\u{3000}'
}

/// Tells whether `c` is white space.
pub fn is_whitespace(c: char) -> (blank: bool)
    ensures
        blank == whitespace(c),
{
    ('\u{9}' <= c && c <= '\u{d}') || c == ' ' || c == '\u{85}' || c == '\u{a0}' || c == '\u{1680}'
        || ('\u{2000}' <= c && c <= '\u{200a}') || c == '\u{2028}' || c == '\u{2029}' || c
        == '\u{202f}' || c == '\u{205f}' || c == '\u{3000}'
}

/// The index of the first occurrence of `c` in `s`, or the length of `s`
/// where `c` does not occur.
pub open spec fn position(s: Seq<char>, c: char) -> nat
    decreases s.len(),
{
    if s.len() == 0 || s[0] == c {
        0
    } else {
        1 + position(s.drop_first(), c)
    }
}

/// `position` is at most the length, nothing before it is `c`, and where it
/// is an index, `c` stands there.
pub proof fn lemma_position(s: Seq<char>, c: char)
    ensures
        position(s, c) <= s.len(),
        forall|i: int| 0 <= i < position(s, c) ==> s[i] != c,
        position(s, c) < s.len() ==> s[position(s, c) as int] == c,
    decreases s.len(),
{
    if s.len() == 0 || s[0] == c {
    } else {
        let rest = s.drop_first();
        lemma_position(rest, c);
        assert forall|i: int| 0 <= i < position(s, c) implies s[i] != c by {
            if i > 0 {
                assert(rest[i - 1] == s[i]);
            }
        }
        assert(position(rest, c) < rest.len() ==> rest[position(rest, c) as int] == s[position(
            s,
            c,
        ) as int]);
    }
}

/// Any index with the three properties of `lemma_position` is `position`.
pub proof fn lemma_position_unique(s: Seq<char>, c: char, k: int)
    requires
        0 <= k <= s.len(),
        forall|i: int| 0 <= i < k ==> s[i] != c,
        k < s.len() ==> s[k] == c,
    ensures
        position(s, c) == k,
{
    lemma_position(s, c);
    let p = position(s, c) as int;
    if p < k {
        assert(s[p] == c);
    } else if k < p {
        assert(s[k] == c);
    }
}

/// Finds the first occurrence of `c` in `s`.
pub fn find_char(s: &str, c: char) -> (at: usize)
    ensures
        at == position(s@, c),
{
    let total: usize = s.unicode_len();
    let mut at: usize = 0;
    let mut found = false;
    for x in it: s.chars()
        invariant
            it.seq() == s@,
            s@.len() == total,
            !found ==> at == it.index(),
            found ==> at < it.index() && s@[at as int] == c,
            forall|i: int| 0 <= i < at ==> s@[i] != c,
    {
        if !found {
            if x == c {
                found = true;
            } else {
                at = at + 1;
            }
        }
    }
    proof {
        lemma_position_unique(s@, c, at as int);
    }
    at
}

/// How many characters at the start of `s` are white space.
pub open spec fn leading_blanks(s: Seq<char>) -> nat
    decreases s.len(),
{
    if s.len() == 0 || !whitespace(s[0]) {
        0
    } else {
        1 + leading_blanks(s.drop_first())
    }
}

/// How many characters at the end of `s` are white space.
pub open spec fn trailing_blanks(s: Seq<char>) -> nat
    decreases s.len(),
{
    if s.len() == 0 || !whitespace(s.last()) {
        0
    } else {
        1 + trailing_blanks(s.drop_last())
    }
}

/// `s` without the white space at its start and at its end.
pub open spec fn trimmed(s: Seq<char>) -> Seq<char> {
    let rest = s.skip(leading_blanks(s) as int);
    rest.take(rest.len() - trailing_blanks(rest))
}

/// A run of `k` blanks at the start that ends the text or meets a
/// character that is no blank is the whole leading run.
pub proof fn lemma_leading_blanks(s: Seq<char>, k: int)
    requires
        0 <= k <= s.len(),
        forall|i: int| 0 <= i < k ==> whitespace(s[i]),
        k < s.len() ==> !whitespace(s[k]),
    ensures
        leading_blanks(s) == k,
    decreases s.len(),
{
    if k > 0 {
        let rest = s.drop_first();
        assert forall|i: int| 0 <= i < k - 1 implies whitespace(rest[i]) by {
            assert(rest[i] == s[i + 1]);
        }
        assert(k - 1 < rest.len() ==> rest[k - 1] == s[k]);
        lemma_leading_blanks(rest, k - 1);
        assert(whitespace(s[0]));
    }
}

/// A run of `k` blanks at the end that reaches the start or follows a
/// character that is no blank is the whole trailing run.
pub proof fn lemma_trailing_blanks(s: Seq<char>, k: int)
    requires
        0 <= k <= s.len(),
        forall|i: int| s.len() - k <= i < s.len() ==> whitespace(s[i]),
        k < s.len() ==> !whitespace(s[s.len() - k - 1]),
    ensures
        trailing_blanks(s) == k,
    decreases s.len(),
{
    if k > 0 {
        let rest = s.drop_last();
        assert forall|i: int| rest.len() - (k - 1) <= i < rest.len() implies whitespace(
            rest[i],
        ) by {
            assert(rest[i] == s[i]);
        }
        assert(k - 1 < rest.len() ==> rest[rest.len() - (k - 1) - 1] == s[s.len() - k - 1]);
        lemma_trailing_blanks(rest, k - 1);
        assert(whitespace(s[s.len() - 1]));
    }
}

/// The trimmed text neither starts nor ends with white space.
pub proof fn lemma_trimmed_ends(s: Seq<char>)
    ensures
        trimmed(s).len() > 0 ==> !whitespace(trimmed(s).first()) && !whitespace(
            trimmed(s).last(),
        ),
        trimmed(s).len() <= s.len(),
{
    lemma_blank_runs(s);
    let rest = s.skip(leading_blanks(s) as int);
    lemma_blank_runs(rest);
    let t = trimmed(s);
    if t.len() > 0 {
        assert(t.last() == rest[rest.len() - trailing_blanks(rest) - 1]);
        assert(t.first() == rest[0]);
        assert(rest[0] == s[leading_blanks(s) as int]);
    }
}

/// Both runs lie within the text, hold blanks only, and stop at a character
/// that is no blank.
pub proof fn lemma_blank_runs(s: Seq<char>)
    ensures
        leading_blanks(s) <= s.len(),
        forall|i: int| 0 <= i < leading_blanks(s) ==> whitespace(s[i]),
        leading_blanks(s) < s.len() ==> !whitespace(s[leading_blanks(s) as int]),
        trailing_blanks(s) <= s.len(),
        forall|i: int| s.len() - trailing_blanks(s) <= i < s.len() ==> whitespace(s[i]),
        trailing_blanks(s) < s.len() ==> !whitespace(s[s.len() - trailing_blanks(s) - 1]),
    decreases s.len(),
{
    if s.len() > 0 {
        if whitespace(s[0]) {
            let rest = s.drop_first();
            lemma_blank_runs(rest);
            assert forall|i: int| 0 <= i < leading_blanks(s) implies whitespace(s[i]) by {
                if i > 0 {
                    assert(rest[i - 1] == s[i]);
                }
            }
            assert(leading_blanks(rest) < rest.len() ==> rest[leading_blanks(rest) as int]
                == s[leading_blanks(s) as int]);
        }
        if whitespace(s.last()) {
            let rest = s.drop_last();
            lemma_blank_runs(rest);
            assert forall|i: int| s.len() - trailing_blanks(s) <= i < s.len() implies whitespace(
                s[i],
            ) by {
                if i < s.len() - 1 {
                    assert(rest[i] == s[i]);
                }
            }
            assert(trailing_blanks(rest) < rest.len() ==> rest[rest.len() - trailing_blanks(rest)
                - 1] == s[s.len() - trailing_blanks(s) - 1]);
        }
    }
}

/// Removes the white space at both ends of `s`.
pub fn trim(s: &str) -> (out: String)
    ensures
        out@ == trimmed(s@),
{
    let total: usize = s.unicode_len();
    let mut start: usize = 0;
    let mut end: usize = 0;
    let mut at: usize = 0;
    let mut seen = false;
    for x in it: s.chars()
        invariant
            it.seq() == s@,
            s@.len() == total,
            at == it.index(),
            forall|i: int| 0 <= i < start ==> whitespace(s@[i]),
            !seen ==> start == at && end == 0,
            seen ==> start < end <= at && !whitespace(s@[start as int]) && !whitespace(
                s@[end - 1],
            ),
            seen ==> forall|i: int| end <= i < at ==> whitespace(s@[i]),
    {
        if is_whitespace(x) {
            if !seen {
                start = start + 1;
            }
        } else {
            seen = true;
            end = at + 1;
        }
        at = at + 1;
    }
    if !seen {
        end = start;
    }
    proof {
        lemma_leading_blanks(s@, start as int);
        let rest = s@.skip(start as int);
        if seen {
            assert(rest[end - start - 1] == s@[end - 1]);
        }
        assert forall|i: int| rest.len() - (total - end) <= i < rest.len() implies whitespace(
            rest[i],
        ) by {
            assert(rest[i] == s@[i + start]);
        }
        lemma_trailing_blanks(rest, total - end);
        assert(rest.take(rest.len() - (total - end)) =~= s@.subrange(start as int, end as int));
    }
    s.substring_char(start, end).to_owned()
}

/// The text up to its first line feed, or all of it where it has none.
pub open spec fn first_line(s: Seq<char>) -> Seq<char> {
    s.take(position(s, '\n') as int)
}

/// Takes the first line of `s`.
pub fn take_first_line(s: &str) -> (out: String)
    ensures
        out@ == first_line(s@),
{
    let at = find_char(s, '\n');
    proof {
        lemma_position(s@, '\n');
    }
    s.substring_char(0, at).to_owned()
}

/// The character that writes the digit `d`.
pub open spec fn digit(d: nat) -> char {
    if d == 0 {
        '0'
    } else if d == 1 {
        '1'
    } else if d == 2 {
        '2'
    } else if d == 3 {
        '3'
    } else if d == 4 {
        '4'
    } else if d == 5 {
        '5'
    } else if d == 6 {
        '6'
    } else if d == 7 {
        '7'
    } else if d == 8 {
        '8'
    } else {
        '9'
    }
}

/// `n` written in base ten, without leading zeros.
pub open spec fn decimal(n: nat) -> Seq<char>
    decreases n,
{
    if n < 10 {
        seq![digit(n)]
    } else {
        decimal(n / 10).push(digit(n % 10))
    }
}

/// Numbers below ten take one character, all others more.
pub proof fn lemma_decimal_len(n: nat)
    ensures
        decimal(n).len() >= 1,
        n >= 10 ==> decimal(n).len() >= 2,
    decreases n,
{
    if n >= 10 {
        lemma_decimal_len(n / 10);
    }
}

/// Two numbers that are written alike are equal.
pub proof fn lemma_decimal_injective(a: nat, b: nat)
    requires
        decimal(a) == decimal(b),
    ensures
        a == b,
    decreases a,
{
    lemma_decimal_len(a);
    lemma_decimal_len(b);
    if a < 10 || b < 10 {
        assert(decimal(a).len() == decimal(b).len());
        assert(a < 10 && b < 10);
        assert(decimal(a)[0] == digit(a));
        assert(decimal(b)[0] == digit(b));
    } else {
        let x = decimal(a / 10);
        let y = decimal(b / 10);
        assert(x.push(digit(a % 10)).drop_last() =~= x);
        assert(y.push(digit(b % 10)).drop_last() =~= y);
        assert(x.push(digit(a % 10)).last() == digit(a % 10));
        assert(y.push(digit(b % 10)).last() == digit(b % 10));
        assert(x == y);
        assert(digit(a % 10) == digit(b % 10));
        lemma_decimal_injective(a / 10, b / 10);
        assert(a % 10 == b % 10);
        assert(a == 10 * (a / 10) + a % 10);
        assert(b == 10 * (b / 10) + b % 10);
    }
}

/// The text of one digit.
fn digit_text(d: usize) -> (out: &'static str)
    requires
        d < 10,
    ensures
        out@ == seq![digit(d as nat)],
{
    proof {
        reveal_strlit("0");
        reveal_strlit("1");
        reveal_strlit("2");
        reveal_strlit("3");
        reveal_strlit("4");
        reveal_strlit("5");
        reveal_strlit("6");
        reveal_strlit("7");
        reveal_strlit("8");
        reveal_strlit("9");
    }
    let out = if d == 0 {
        "0"
    } else if d == 1 {
        "1"
    } else if d == 2 {
        "2"
    } else if d == 3 {
        "3"
    } else if d == 4 {
        "4"
    } else if d == 5 {
        "5"
    } else if d == 6 {
        "6"
    } else if d == 7 {
        "7"
    } else if d == 8 {
        "8"
    } else {
        "9"
    };
    assert(out@ =~= seq![digit(d as nat)]);
    out
}

/// Writes `n` in base ten.
pub fn to_decimal(n: usize) -> (out: String)
    ensures
        out@ == decimal(n as nat),
    decreases n,
{
    if n < 10 {
        digit_text(n).to_owned()
    } else {
        let mut out = to_decimal(n / 10);
        out.append(digit_text(n % 10));
        assert(out@ =~= decimal(n as nat));
        out
    }
}


} // verus!
