//! Character-level helpers shared by the display and input code: decimal
//! rendering of counts, Unicode-whitespace trimming bounds, and the decimal
//! parse of a page number typed by the user.
use vstd::prelude::*;

verus! {

/// The ASCII character of decimal digit `d` (`d < 10`).
pub open spec fn digit_char(d: nat) -> char {
    if d == 0 { '0' }
    else if d == 1 { '1' }
    else if d == 2 { '2' }
    else if d == 3 { '3' }
    else if d == 4 { '4' }
    else if d == 5 { '5' }
    else if d == 6 { '6' }
    else if d == 7 { '7' }
    else if d == 8 { '8' }
    else { '9' }
}

/// The decimal rendering of `n`, most significant digit first, without
/// leading zeros ("0" for zero).
pub open spec fn decimal(n: nat) -> Seq<char>
    decreases n,
{
    if n < 10 {
        seq![digit_char(n)]
    } else {
        decimal(n / 10).push(digit_char(n % 10))
    }
}

/// Whether `c` is an ASCII decimal digit.
pub open spec fn is_digit(c: char) -> bool {
    '0' <= c && c <= '9'
}

/// The value of an ASCII decimal digit.
pub open spec fn digit_value(c: char) -> nat {
    (c as int - '0' as int) as nat
}

/// The value of a sequence of decimal digits, most significant first.
pub open spec fn digits_value(d: Seq<char>) -> nat
    decreases d.len(),
{
    if d.len() == 0 {
        0
    } else {
        digits_value(d.drop_last()) * 10 + digit_value(d.last())
    }
}

/// Whether every character of `d` is an ASCII decimal digit.
pub open spec fn all_digits(d: Seq<char>) -> bool {
    forall|i: int| 0 <= i < d.len() ==> is_digit(#[trigger] d[i])
}

/// What the standard library's decimal `usize` parse accepts: an optional
/// leading `+` followed by at least one ASCII digit, with a value that fits
/// in `usize`.
pub open spec fn parse_usize_spec(s: Seq<char>) -> Option<usize> {
    let digits = if s.len() > 0 && s[0] == '+' { s.drop_first() } else { s };
    if digits.len() == 0 || !all_digits(digits) || digits_value(digits) > usize::MAX {
        None
    } else {
        Some(digits_value(digits) as usize)
    }
}

/// Whether `c` has the Unicode `White_Space` property, as `char::is_whitespace`
/// tests it: tab, line feed, vertical tab, form feed, carriage return, space,
/// next line, no-break space, ogham space mark, the spaces from en quad to
/// hair space, line separator, paragraph separator, narrow no-break space,
/// medium mathematical space and ideographic space.
pub open spec fn is_white_space(c: char) -> bool {
    let u = c as u32;
    ||| 0x09 <= u <= 0x0D
    ||| u == 0x20
    ||| u == 0x85
    ||| u == 0xA0
    ||| u == 0x1680
    ||| 0x2000 <= u <= 0x200A
    ||| u == 0x2028
    ||| u == 0x2029
    ||| u == 0x202F
    ||| u == 0x205F
    ||| u == 0x3000
}

/// `s` with its leading Unicode whitespace removed.
pub open spec fn trim_start_spec(s: Seq<char>) -> Seq<char>
    decreases s.len(),
{
    if s.len() > 0 && is_white_space(s[0]) { trim_start_spec(s.drop_first()) } else { s }
}

/// `s` with its trailing Unicode whitespace removed.
pub open spec fn trim_end_spec(s: Seq<char>) -> Seq<char>
    decreases s.len(),
{
    if s.len() > 0 && is_white_space(s.last()) { trim_end_spec(s.drop_last()) } else { s }
}

/// `s` with leading and trailing Unicode whitespace removed (`str::trim`).
pub open spec fn trim_spec(s: Seq<char>) -> Seq<char> {
    trim_end_spec(trim_start_spec(s))
}

/// Whether `c` has the Unicode `White_Space` property.
pub fn char_is_whitespace(c: char) -> (b: bool)
    ensures
        b == is_white_space(c),
{
    let u = c as u32;
    (0x09 <= u && u <= 0x0D) || u == 0x20 || u == 0x85 || u == 0xA0 || u == 0x1680 || (0x2000 <= u
        && u <= 0x200A) || u == 0x2028 || u == 0x2029 || u == 0x202F || u == 0x205F || u == 0x3000
}

/// The one-character string of decimal digit `d`.
fn digit_str(d: usize) -> (s: &'static str)
    requires
        d < 10,
    ensures
        s@ == seq![digit_char(d as nat)],
{
    if d == 0 {
        proof { reveal_strlit("0"); }
        "0"
    } else if d == 1 {
        proof { reveal_strlit("1"); }
        "1"
    } else if d == 2 {
        proof { reveal_strlit("2"); }
        "2"
    } else if d == 3 {
        proof { reveal_strlit("3"); }
        "3"
    } else if d == 4 {
        proof { reveal_strlit("4"); }
        "4"
    } else if d == 5 {
        proof { reveal_strlit("5"); }
        "5"
    } else if d == 6 {
        proof { reveal_strlit("6"); }
        "6"
    } else if d == 7 {
        proof { reveal_strlit("7"); }
        "7"
    } else if d == 8 {
        proof { reveal_strlit("8"); }
        "8"
    } else {
        proof { reveal_strlit("9"); }
        "9"
    }
}

/// Append the decimal rendering of `n` to `s`.
pub fn push_decimal(s: &mut String, n: u64)
    ensures
        final(s)@ == old(s)@ + decimal(n as nat),
    decreases n,
{
    if n >= 10 {
        push_decimal(s, n / 10);
    }
    let d = (n % 10) as usize;
    s.append(digit_str(d));
    proof {
        if n >= 10 {
            assert(decimal(n as nat) == decimal((n / 10) as nat).push(digit_char((n % 10) as nat)));
            assert(old(s)@ + decimal((n / 10) as nat) + seq![digit_char(d as nat)]
                =~= old(s)@ + decimal(n as nat));
        } else {
            assert(decimal(n as nat) == seq![digit_char(n as nat)]);
        }
    }
}

/// The decimal rendering of `n` as a new string.
pub fn decimal_string(n: u64) -> (s: String)
    ensures
        s@ == decimal(n as nat),
{
    let mut s = String::new();
    push_decimal(&mut s, n);
    assert(s@ =~= decimal(n as nat));
    s
}

/// Trimming characters off the front one at a time agrees with the recursive
/// definition.
proof fn lemma_trim_start_step(s: Seq<char>, i: int)
    requires
        0 <= i < s.len(),
        is_white_space(s[i]),
    ensures
        trim_start_spec(s.subrange(i, s.len() as int)) == trim_start_spec(s.subrange(i + 1, s.len() as int)),
{
    assert(s.subrange(i, s.len() as int).drop_first() =~= s.subrange(i + 1, s.len() as int));
}

/// Trimming characters off the back one at a time agrees with the recursive
/// definition.
proof fn lemma_trim_end_step(s: Seq<char>, j: int)
    requires
        0 < j <= s.len(),
        is_white_space(s[j - 1]),
    ensures
        trim_end_spec(s.subrange(0, j)) == trim_end_spec(s.subrange(0, j - 1)),
{
    assert(s.subrange(0, j).drop_last() =~= s.subrange(0, j - 1));
}

/// The character bounds `[start, end)` of `s` with leading and trailing
/// Unicode whitespace removed: `s@.subrange(start, end) == trim_spec(s@)`.
pub fn trim_bounds(s: &str) -> (r: (usize, usize))
    ensures
        r.0 <= r.1 <= s@.len(),
        s@.subrange(r.0 as int, r.1 as int) == trim_spec(s@),
{
    let len = s.unicode_len();
    let ghost full = s@;
    let mut start: usize = 0;
    assert(full.subrange(0, len as int) =~= full);
    while start < len
        invariant
            len == full.len(),
            full == s@,
            start <= len,
            trim_start_spec(full) == trim_start_spec(full.subrange(start as int, len as int)),
        ensures
            start <= len,
            trim_start_spec(full) == trim_start_spec(full.subrange(start as int, len as int)),
            start < len ==> !is_white_space(full[start as int]),
        decreases len - start,
    {
        let c = s.get_char(start);
        if !char_is_whitespace(c) {
            break;
        }
        proof { lemma_trim_start_step(full, start as int); }
        start = start + 1;
    }
    let ghost rest = full.subrange(start as int, len as int);
    assert(rest.subrange(0, rest.len() as int) =~= rest);
    assert(trim_start_spec(rest) == rest) by {
        if rest.len() > 0 {
            assert(rest[0] == full[start as int]);
        }
    }
    let mut end: usize = len;
    while end > start
        invariant
            len == full.len(),
            full == s@,
            start <= end <= len,
            rest == full.subrange(start as int, len as int),
            trim_end_spec(rest) == trim_end_spec(full.subrange(start as int, end as int)),
        ensures
            start <= end <= len,
            trim_end_spec(rest) == trim_end_spec(full.subrange(start as int, end as int)),
            end > start ==> !is_white_space(full[end as int - 1]),
        decreases end,
    {
        let c = s.get_char(end - 1);
        if !char_is_whitespace(c) {
            break;
        }
        proof {
            let t = full.subrange(start as int, len as int);
            assert(full.subrange(start as int, end as int) =~= t.subrange(0, end - start));
            assert(full.subrange(start as int, end as int - 1) =~= t.subrange(0, end - start - 1));
            lemma_trim_end_step(t, end - start);
        }
        end = end - 1;
    }
    let ghost mid = full.subrange(start as int, end as int);
    assert(trim_end_spec(mid) == mid) by {
        if mid.len() > 0 {
            assert(mid.last() == full[end as int - 1]);
        }
    }
    (start, end)
}

/// Extending a digit string never lowers its value.
proof fn lemma_digits_value_prefix(d: Seq<char>, k: int)
    requires
        0 <= k <= d.len(),
    ensures
        digits_value(d.take(k)) <= digits_value(d),
    decreases d.len(),
{
    if k < d.len() {
        assert(d.drop_last().take(k) =~= d.take(k));
        lemma_digits_value_prefix(d.drop_last(), k);
    } else {
        assert(d.take(k) =~= d);
    }
}

/// Parse the characters `[from, to)` of `s` as the standard library parses a
/// decimal `usize`.
pub fn parse_usize_range(s: &str, from: usize, to: usize) -> (r: Option<usize>)
    requires
        from <= to <= s@.len(),
    ensures
        r == parse_usize_spec(s@.subrange(from as int, to as int)),
{
    let ghost t = s@.subrange(from as int, to as int);
    let mut i = from;
    if i < to && s.get_char(i) == '+' {
        i = i + 1;
    }
    let ghost digits = s@.subrange(i as int, to as int);
    assert(digits =~= (if t.len() > 0 && t[0] == '+' { t.drop_first() } else { t }));
    if i == to {
        assert(digits.len() == 0);
        assert(parse_usize_spec(t) is None);
        return None;
    }
    let mut acc: usize = 0;
    let mut overflow = false;
    let mut j = i;
    while j < to
        invariant
            from <= i <= j <= to <= s@.len(),
            digits == s@.subrange(i as int, to as int),
            t == s@.subrange(from as int, to as int),
            digits == (if t.len() > 0 && t[0] == '+' { t.drop_first() } else { t }),
            all_digits(s@.subrange(i as int, j as int)),
            !overflow ==> acc as nat == digits_value(s@.subrange(i as int, j as int)),
            overflow ==> digits_value(s@.subrange(i as int, j as int)) > usize::MAX,
        decreases to - j,
    {
        let c = s.get_char(j);
        if !('0' <= c && c <= '9') {
            assert(!all_digits(digits)) by {
                assert(digits[j - i] == c);
            }
            return None;
        }
        let ghost prev = s@.subrange(i as int, j as int);
        let ghost next = s@.subrange(i as int, j as int + 1);
        assert(next.drop_last() =~= prev);
        assert(next.last() == c);
        let d = (c as u32 - '0' as u32) as usize;
        assert(d as nat == digit_value(c));
        if !overflow {
            match acc.checked_mul(10) {
                Some(m) => match m.checked_add(d) {
                    Some(v) => {
                        acc = v;
                    },
                    None => {
                        overflow = true;
                    },
                },
                None => {
                    overflow = true;
                    assert(digits_value(next) >= digits_value(prev) * 10);
                },
            }
        } else {
            assert(digits_value(next) >= digits_value(prev) * 10) by (nonlinear_arith)
                requires digits_value(next) == digits_value(prev) * 10 + digit_value(c);
        }
        assert(all_digits(next)) by {
            assert forall|k: int| 0 <= k < next.len() implies is_digit(#[trigger] next[k]) by {
                if k < prev.len() {
                    assert(next[k] == prev[k]);
                }
            }
        }
        j = j + 1;
    }
    assert(s@.subrange(i as int, j as int) =~= digits);
    if overflow {
        None
    } else {
        Some(acc)
    }
}

} // verus!
