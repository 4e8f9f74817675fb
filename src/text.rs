//! Character-level helpers: decimal numerals and `::`-separated tokens.

use vstd::prelude::*;
use vstd::string::*;

verus! {

/// Relies on `String::push`: the character is appended at the end.
#[verifier::external_body]
pub(crate) fn push_char(s: &mut String, c: char)
    ensures
        final(s)@ == old(s)@.push(c),
{
    s.push(c);
}

pub open spec fn is_digit(c: char) -> bool {
    '0' <= c && c <= '9'
}

pub open spec fn digit_value(c: char) -> nat {
    (c as int - '0' as int) as nat
}

pub open spec fn digit_char(d: nat) -> char {
    (d + '0' as int) as char
}

pub open spec fn all_digits(s: Seq<char>) -> bool {
    forall|i: int| 0 <= i < s.len() ==> is_digit(#[trigger] s[i])
}

/// The decimal numeral of `n`, without sign or leading zeros.
pub open spec fn decimal(n: nat) -> Seq<char>
    decreases n,
{
    if n < 10 {
        seq![digit_char(n)]
    } else {
        decimal(n / 10).push(digit_char(n % 10))
    }
}

/// The number that a string of decimal digits denotes.
pub open spec fn digits_value(s: Seq<char>) -> nat
    decreases s.len(),
{
    if s.len() == 0 {
        0
    } else {
        digits_value(s.drop_last()) * 10 + digit_value(s.last())
    }
}

/// The numeral `-n` for negative `n`, else the numeral of `n`.
pub open spec fn signed_decimal(n: int) -> Seq<char> {
    if n < 0 {
        seq!['-'] + decimal((-n) as nat)
    } else {
        decimal(n as nat)
    }
}

/// What `str::parse::<u64>` accepts: an optional `+`, then one or more digits
/// whose value fits.
pub open spec fn parse_u64_spec(s: Seq<char>) -> Option<u64> {
    let d = if s.len() > 0 && s[0] == '+' {
        s.drop_first()
    } else {
        s
    };
    if d.len() > 0 && all_digits(d) && digits_value(d) <= u64::MAX {
        Some(digits_value(d) as u64)
    } else {
        None
    }
}

/// What `str::parse::<i64>` accepts: an optional sign, then one or more digits
/// whose signed value fits.
pub open spec fn parse_i64_spec(s: Seq<char>) -> Option<i64> {
    if s.len() > 0 && s[0] == '-' {
        let d = s.drop_first();
        if d.len() > 0 && all_digits(d) && digits_value(d) <= 0x8000_0000_0000_0000 {
            Some((-(digits_value(d) as int)) as i64)
        } else {
            None
        }
    } else {
        let d = if s.len() > 0 && s[0] == '+' {
            s.drop_first()
        } else {
            s
        };
        if d.len() > 0 && all_digits(d) && digits_value(d) <= i64::MAX {
            Some(digits_value(d) as i64)
        } else {
            None
        }
    }
}

pub proof fn lemma_digit_char(d: nat)
    requires
        d < 10,
    ensures
        is_digit(digit_char(d)),
        digit_value(digit_char(d)) == d,
        digit_char(d) != ':',
        digit_char(d) != '+',
        digit_char(d) != '-',
{
}

/// A numeral is made of digits and denotes its number.
pub proof fn lemma_decimal(n: nat)
    ensures
        decimal(n).len() > 0,
        all_digits(decimal(n)),
        digits_value(decimal(n)) == n,
        no_colon(decimal(n)),
        decimal(n)[0] != '+',
        decimal(n)[0] != '-',
    decreases n,
{
    if n < 10 {
        lemma_digit_char(n);
        assert(decimal(n).drop_last() =~= Seq::<char>::empty());
        assert(decimal(n).last() == digit_char(n));
        assert(digits_value(Seq::<char>::empty()) == 0);
        assert(digits_value(decimal(n)) == digits_value(decimal(n).drop_last()) * 10 + digit_value(decimal(n).last()));
    } else {
        lemma_decimal(n / 10);
        lemma_digit_char(n % 10);
        let s = decimal(n);
        assert(s.drop_last() =~= decimal(n / 10));
        assert(s[0] == decimal(n / 10)[0]);
        assert(n == (n / 10) * 10 + n % 10) by (nonlinear_arith);
        assert(s.last() == digit_char(n % 10));
        assert(digits_value(s) == digits_value(s.drop_last()) * 10 + digit_value(s.last()));
    }
}

/// Appending a digit keeps the value of a digit string from falling.
proof fn lemma_digits_value_prefix(s: Seq<char>, i: int, j: int)
    requires
        0 <= i <= j <= s.len(),
        all_digits(s),
    ensures
        digits_value(s.subrange(0, i)) <= digits_value(s.subrange(0, j)),
    decreases j - i,
{
    if i < j {
        lemma_digits_value_prefix(s, i, j - 1);
        assert(s.subrange(0, j).drop_last() =~= s.subrange(0, j - 1));
    }
}

/// Appends the decimal numeral of `n`.
pub fn push_decimal(s: &mut String, n: u64)
    ensures
        final(s)@ == old(s)@ + decimal(n as nat),
    decreases n,
{
    if n >= 10 {
        push_decimal(s, n / 10);
    }
    let d: u8 = (n % 10) as u8;
    let c = (48u8 + d) as char;
    assert(c == digit_char((n % 10) as nat));
    push_char(s, c);
    assert(final(s)@ =~= old(s)@ + decimal(n as nat));
}

/// Appends the decimal numeral of `n`, with a `-` when it is negative.
pub fn push_signed_decimal(s: &mut String, n: i64)
    ensures
        final(s)@ == old(s)@ + signed_decimal(n as int),
{
    if n < 0 {
        push_char(s, '-');
        let m: u64 = (-(n + 1)) as u64 + 1;
        push_decimal(s, m);
        assert(final(s)@ =~= old(s)@ + signed_decimal(n as int));
    } else {
        push_decimal(s, n as u64);
    }
}

/// Reads a run of decimal digits, or `None` where a character is no digit, the
/// run is empty, or its value exceeds `bound`.
fn parse_digits(s: &str, start: usize, bound: u64) -> (r: Option<u64>)
    requires
        start <= s@.len(),
    ensures
        ({
            let d = s@.subrange(start as int, s@.len() as int);
            r == (if d.len() > 0 && all_digits(d) && digits_value(d) <= bound {
                Some(digits_value(d) as u64)
            } else {
                None
            })
        }),
{
    let n = s.unicode_len();
    let ghost d = s@.subrange(start as int, s@.len() as int);
    if start == n {
        return None;
    }
    let mut acc: u64 = 0;
    let mut i: usize = start;
    while i < n
        invariant
            n == s@.len(),
            start <= i <= n,
            d == s@.subrange(start as int, s@.len() as int),
            all_digits(d.subrange(0, i - start)),
            acc as nat == digits_value(d.subrange(0, i - start)),
            acc <= bound,
        decreases n - i,
    {
        let c = s.get_char(i);
        if !('0' <= c && c <= '9') {
            assert(d[i - start] == c);
            return None;
        }
        let v: u64 = (c as u32 - 48u32) as u64;
        assert(d.subrange(0, i + 1 - start).drop_last() =~= d.subrange(0, i - start));
        assert(d.subrange(0, i + 1 - start).last() == c);
        if v > bound || acc > (bound - v) / 10 {
            proof {
                if v <= bound {
                    assert(acc * 10 + v > bound) by (nonlinear_arith)
                        requires
                            acc > (bound - v) / 10,
                            v <= bound,
                    ;
                }
                if all_digits(d) {
                    lemma_digits_value_prefix(d, i + 1 - start, d.len() as int);
                    assert(d.subrange(0, d.len() as int) =~= d);
                }
            }
            return None;
        }
        assert(acc * 10 + v <= bound) by (nonlinear_arith)
            requires
                acc <= (bound - v) / 10,
                v <= 9,
                v <= bound,
        ;
        acc = acc * 10 + v;
        i += 1;
        assert(all_digits(d.subrange(0, i - start)));
    }
    assert(d.subrange(0, n - start) =~= d);
    Some(acc)
}

/// Parses an unsigned decimal as `str::parse::<u64>` does.
pub fn parse_u64(s: &str) -> (r: Option<u64>)
    ensures
        r == parse_u64_spec(s@),
{
    let n = s.unicode_len();
    let start: usize = if n > 0 && s.get_char(0) == '+' {
        1
    } else {
        0
    };
    let r = parse_digits(s, start, u64::MAX);
    if start == 1 {
        assert(s@.drop_first() =~= s@.subrange(1, s@.len() as int));
    } else {
        assert(s@ =~= s@.subrange(0, s@.len() as int));
    }
    r
}

/// Parses a signed decimal as `str::parse::<i64>` does.
pub fn parse_i64(s: &str) -> (r: Option<i64>)
    ensures
        r == parse_i64_spec(s@),
{
    let n = s.unicode_len();
    if n > 0 && s.get_char(0) == '-' {
        assert(s@.drop_first() =~= s@.subrange(1, s@.len() as int));
        match parse_digits(s, 1, 0x8000_0000_0000_0000u64) {
            Some(m) => {
                if m == 0x8000_0000_0000_0000u64 {
                    Some(i64::MIN)
                } else {
                    Some(-(m as i64))
                }
            },
            None => None,
        }
    } else {
        let start: usize = if n > 0 && s.get_char(0) == '+' {
            1
        } else {
            0
        };
        if start == 1 {
            assert(s@.drop_first() =~= s@.subrange(1, s@.len() as int));
        } else {
            assert(s@ =~= s@.subrange(0, s@.len() as int));
        }
        match parse_digits(s, start, i64::MAX as u64) {
            Some(m) => Some(m as i64),
            None => None,
        }
    }
}

/// Whether two strings hold the same characters.
pub fn str_eq(a: &str, b: &str) -> (r: bool)
    ensures
        r == (a@ == b@),
{
    let n = a.unicode_len();
    if n != b.unicode_len() {
        return false;
    }
    let mut i: usize = 0;
    while i < n
        invariant
            n == a@.len(),
            n == b@.len(),
            i <= n,
            forall|j: int| 0 <= j < i ==> a@[j] == b@[j],
        decreases n - i,
    {
        if a.get_char(i) != b.get_char(i) {
            return false;
        }
        i += 1;
    }
    assert(a@ =~= b@);
    true
}

// ---------------------------------------------------------------------------
// `::`-separated tokens
pub open spec fn no_colon(s: Seq<char>) -> bool {
    forall|i: int| 0 <= i < s.len() ==> #[trigger] s[i] != ':'
}

pub open spec fn sep_at(s: Seq<char>, i: int) -> bool {
    0 <= i && i + 1 < s.len() && s[i] == ':' && s[i + 1] == ':'
}

/// The first position at or after `from` where `::` starts.
pub open spec fn find_sep_from(s: Seq<char>, from: int) -> Option<int>
    decreases s.len() - from,
{
    if from < 0 || from + 1 >= s.len() {
        None
    } else if sep_at(s, from) {
        Some(from)
    } else {
        find_sep_from(s, from + 1)
    }
}

pub open spec fn find_sep(s: Seq<char>) -> Option<int> {
    find_sep_from(s, 0)
}

/// The part of a token before its first `::` (all of it where there is none).
pub open spec fn head(s: Seq<char>) -> Seq<char> {
    match find_sep(s) {
        Some(i) => s.subrange(0, i),
        None => s,
    }
}

/// The part of a token after its first `::`, kept verbatim.
pub open spec fn tail(s: Seq<char>) -> Option<Seq<char>> {
    match find_sep(s) {
        Some(i) => Some(s.subrange(i + 2, s.len() as int)),
        None => None,
    }
}

pub open spec fn sep() -> Seq<char> {
    seq![':', ':']
}

proof fn lemma_find_sep_from_joined(a: Seq<char>, b: Seq<char>, from: int)
    requires
        no_colon(a),
        0 <= from <= a.len(),
    ensures
        find_sep_from(a + sep() + b, from) == Some(a.len() as int),
    decreases a.len() - from,
{
    let s = a + sep() + b;
    if from < a.len() {
        assert(s[from] == a[from]);
        lemma_find_sep_from_joined(a, b, from + 1);
    } else {
        assert(s[from] == ':' && s[from + 1] == ':');
    }
}

/// Joining a colon-free part to the rest with `::` is undone by `head` and
/// `tail`.
pub proof fn lemma_split_joined(a: Seq<char>, b: Seq<char>)
    requires
        no_colon(a),
    ensures
        head(a + sep() + b) == a,
        tail(a + sep() + b) == Some(b),
{
    lemma_find_sep_from_joined(a, b, 0);
    let s = a + sep() + b;
    assert(s.subrange(0, a.len() as int) =~= a);
    assert(s.subrange(a.len() as int + 2, s.len() as int) =~= b);
}

proof fn lemma_find_sep_from_none(s: Seq<char>, from: int)
    requires
        no_colon(s),
        0 <= from,
    ensures
        find_sep_from(s, from) is None,
    decreases s.len() - from,
{
    if from + 1 < s.len() {
        assert(s[from] != ':');
        lemma_find_sep_from_none(s, from + 1);
    }
}

/// A colon-free token is all head and has no tail.
pub proof fn lemma_split_plain(s: Seq<char>)
    requires
        no_colon(s),
    ensures
        head(s) == s,
        tail(s) is None,
{
    lemma_find_sep_from_none(s, 0);
}

proof fn lemma_find_sep_from_found(s: Seq<char>, from: int)
    ensures
        find_sep_from(s, from) matches Some(i) ==> sep_at(s, i) && from <= i,
    decreases s.len() - from,
{
    if !(from < 0 || from + 1 >= s.len()) && !sep_at(s, from) {
        lemma_find_sep_from_found(s, from + 1);
    }
}

/// Finds the first `::` of a token.
pub fn find_sep_exec(s: &str) -> (r: Option<usize>)
    ensures
        match r {
            Some(i) => find_sep(s@) == Some(i as int),
            None => find_sep(s@) is None,
        },
{
    let n = s.unicode_len();
    let mut i: usize = 0;
    while n >= 2 && i < n - 1
        invariant
            n == s@.len(),
            find_sep(s@) == find_sep_from(s@, i as int),
        decreases n - i,
    {
        if s.get_char(i) == ':' && s.get_char(i + 1) == ':' {
            return Some(i);
        }
        i += 1;
    }
    None
}

/// Splits a token at its first `::` into `head` and `tail`.
pub fn split_token(s: &str) -> (r: (&str, Option<&str>))
    ensures
        r.0@ == head(s@),
        match r.1 {
            Some(t) => tail(s@) == Some(t@),
            None => tail(s@) is None,
        },
{
    match find_sep_exec(s) {
        Some(i) => {
            proof {
                lemma_find_sep_from_found(s@, 0);
            }
            let n = s.unicode_len();
            (s.substring_char(0, i), Some(s.substring_char(i + 2, n)))
        },
        None => (s, None),
    }
}

} // verus!
