//! Unsigned numbers written in base ten.

use vstd::prelude::*;
use vstd::string::*;
use vstd::utf8::is_ascii_chars;

verus! {

/// The text that a sequence of ASCII bytes stands for.
pub open spec fn ascii_text(bytes: Seq<u8>) -> Seq<char> {
    Seq::new(bytes.len(), |i: int| bytes[i] as char)
}

/// Whether `c` is one of the ten decimal digits.
pub open spec fn is_digit(c: char) -> bool {
    '0' <= c <= '9'
}

/// The number that the digit `c` stands for.
pub open spec fn digit_value(c: char) -> nat {
    (c as int - '0' as int) as nat
}

/// The digit that stands for `d`, for `d` below ten.
pub open spec fn digit_char(d: nat) -> char {
    (d + '0' as nat) as char
}

/// Whether every character of `s` is a decimal digit.
pub open spec fn all_digits(s: Seq<char>) -> bool {
    forall|i: int| 0 <= i < s.len() ==> is_digit(#[trigger] s[i])
}

/// The number that the digits `s` denote, leading zeros allowed. The empty
/// sequence denotes zero.
pub open spec fn decimal_value(s: Seq<char>) -> nat
    decreases s.len(),
{
    if s.len() == 0 {
        0
    } else {
        10 * decimal_value(s.drop_last()) + digit_value(s.last())
    }
}

/// `n` written in base ten, without leading zeros.
pub open spec fn decimal_text(n: nat) -> Seq<char>
    decreases n,
{
    if n < 10 {
        seq![digit_char(n)]
    } else {
        decimal_text(n / 10).push(digit_char(n % 10))
    }
}

/// Whether `s` is a number written without leading zeros: one or more
/// digits, the first of which is `0` only when it is the only one.
pub open spec fn is_canonical_decimal(s: Seq<char>) -> bool {
    &&& s.len() >= 1
    &&& all_digits(s)
    &&& (s.len() == 1 || s[0] != '0')
}

/// Ten to the power of `k`.
pub open spec fn pow10(k: nat) -> nat
    decreases k,
{
    if k == 0 {
        1
    } else {
        10 * pow10((k - 1) as nat)
    }
}

/// The digits of a literal: the text without its leading `+`, if it has one.
pub open spec fn literal_digits(s: Seq<char>) -> Seq<char> {
    if s.len() > 0 && s[0] == '+' {
        s.drop_first()
    } else {
        s
    }
}

/// Whether `s` is an unsigned decimal literal: an optional `+`, then one or
/// more digits.
pub open spec fn is_decimal_literal(s: Seq<char>) -> bool {
    literal_digits(s).len() > 0 && all_digits(literal_digits(s))
}

/// The 64-bit number that the literal `s` denotes, if it is a literal and its
/// value fits.
pub open spec fn u64_of_literal(s: Seq<char>) -> Option<u64> {
    if is_decimal_literal(s) && decimal_value(literal_digits(s)) <= u64::MAX {
        Some(decimal_value(literal_digits(s)) as u64)
    } else {
        None
    }
}

/// The digits of a number are canonical.
pub proof fn lemma_decimal_text_canonical(n: nat)
    ensures
        is_canonical_decimal(decimal_text(n)),
        n >= 1 ==> decimal_text(n)[0] != '0',
    decreases n,
{
    if n >= 10 {
        lemma_decimal_text_canonical(n / 10);
        let head = decimal_text(n / 10);
        let whole = decimal_text(n);
        assert(whole == head.push(digit_char(n % 10)));
        assert forall|i: int| 0 <= i < whole.len() implies is_digit(#[trigger] whole[i]) by {
            if i < head.len() {
                assert(whole[i] == head[i]);
            }
        }
        assert(whole[0] == head[0]);
    }
}

/// Reading the digits of a number gives the number back.
pub proof fn lemma_value_of_text(n: nat)
    ensures
        decimal_value(decimal_text(n)) == n,
    decreases n,
{
    if n < 10 {
        let s = decimal_text(n);
        assert(s.drop_last().len() == 0);
        assert(decimal_value(s.drop_last()) == 0);
        assert(s.last() == digit_char(n));
    } else {
        lemma_value_of_text(n / 10);
        let head = decimal_text(n / 10);
        let whole = decimal_text(n);
        assert(whole.drop_last() =~= head);
        assert(whole.last() == digit_char(n % 10));
    }
}

/// A number written with leading zeros only is zero.
proof fn lemma_value_zero(s: Seq<char>)
    requires
        all_digits(s),
        decimal_value(s) == 0,
    ensures
        forall|i: int| 0 <= i < s.len() ==> #[trigger] s[i] == '0',
    decreases s.len(),
{
    if s.len() > 0 {
        assert(is_digit(s.last()));
        assert(all_digits(s.drop_last())) by {
            assert forall|i: int| 0 <= i < s.drop_last().len() implies is_digit(
                #[trigger] s.drop_last()[i],
            ) by {
                assert(s.drop_last()[i] == s[i]);
            }
        }
        lemma_value_zero(s.drop_last());
        assert forall|i: int| 0 <= i < s.len() implies #[trigger] s[i] == '0' by {
            if i < s.len() - 1 {
                assert(s.drop_last()[i] == s[i]);
            }
        }
    }
}

/// Writing the value of canonical digits gives the same digits back.
pub proof fn lemma_text_of_value(s: Seq<char>)
    requires
        is_canonical_decimal(s),
    ensures
        decimal_text(decimal_value(s)) == s,
    decreases s.len(),
{
    let head = s.drop_last();
    let d = digit_value(s.last());
    assert(is_digit(s.last()));
    if s.len() == 1 {
        assert(head.len() == 0);
        assert(decimal_value(head) == 0);
        assert(decimal_value(s) == d);
        assert(decimal_text(d) =~= s);
    } else {
        assert(all_digits(head)) by {
            assert forall|i: int| 0 <= i < head.len() implies is_digit(#[trigger] head[i]) by {
                assert(head[i] == s[i]);
            }
        }
        assert(head[0] == s[0]);
        assert(is_canonical_decimal(head));
        lemma_text_of_value(head);
        let h = decimal_value(head);
        if h == 0 {
            lemma_value_zero(head);
            assert(head[0] == '0');
            assert(false);
        }
        let n = decimal_value(s);
        assert(n == 10 * h + d);
        assert(n / 10 == h && n % 10 == d);
        assert(decimal_text(n) == decimal_text(h).push(digit_char(d)));
        assert(decimal_text(n) =~= s);
    }
}

/// The value of `k` digits is below ten to the power of `k`.
pub proof fn lemma_value_bound(s: Seq<char>)
    requires
        all_digits(s),
    ensures
        decimal_value(s) < pow10(s.len()),
    decreases s.len(),
{
    if s.len() > 0 {
        assert(is_digit(s.last()));
        assert(all_digits(s.drop_last())) by {
            assert forall|i: int| 0 <= i < s.drop_last().len() implies is_digit(
                #[trigger] s.drop_last()[i],
            ) by {
                assert(s.drop_last()[i] == s[i]);
            }
        }
        lemma_value_bound(s.drop_last());
    }
}

/// The value of a prefix, scaled by the digits that follow it, is not above
/// the value of the whole.
pub proof fn lemma_value_prefix(s: Seq<char>, k: int)
    requires
        all_digits(s),
        0 <= k <= s.len(),
    ensures
        decimal_value(s.subrange(0, k)) <= decimal_value(s),
    decreases s.len() - k,
{
    if k == s.len() {
        assert(s.subrange(0, k) =~= s);
    } else {
        assert forall|i: int| 0 <= i < s.drop_last().len() implies is_digit(
            #[trigger] s.drop_last()[i],
        ) by {
            assert(s.drop_last()[i] == s[i]);
        }
        lemma_value_prefix(s.drop_last(), k);
        assert(s.drop_last().subrange(0, k) =~= s.subrange(0, k));
    }
}

/// A decimal literal holds ASCII characters only.
pub proof fn lemma_literal_is_ascii(s: Seq<char>)
    requires
        is_decimal_literal(s),
    ensures
        is_ascii_chars(s),
{
    let d = literal_digits(s);
    assert forall|i: int| 0 <= i < s.len() implies '\0' <= #[trigger] s[i] <= '\u{7f}' by {
        if s[0] == '+' {
            if i > 0 {
                assert(is_digit(d[i - 1]));
            }
        } else {
            assert(is_digit(d[i]));
        }
    }
}

/// The bytes of `s`, if `s` holds ASCII characters only.
pub fn ascii_bytes(s: &str) -> (r: Option<&[u8]>)
    ensures
        r is Some <==> is_ascii_chars(s@),
        r matches Some(bytes) ==> ascii_text(bytes@) == s@,
{
    if s.is_ascii() {
        let bytes = s.as_bytes();
        proof {
            is_ascii_spec_bytes(s);
            assert(ascii_text(bytes@) =~= s@);
        }
        Some(bytes)
    } else {
        None
    }
}

/// The number of digits that `s` holds from `from` on, up to the first
/// character that is no digit.
pub open spec fn digit_run(s: Seq<char>, from: int) -> nat
    decreases s.len() - from,
{
    if 0 <= from < s.len() && is_digit(s[from]) {
        1 + digit_run(s, from + 1)
    } else {
        0
    }
}

/// A run of digits holds digits, stays inside the text, and ends at the end
/// of the text or before a character that is no digit.
pub proof fn lemma_digit_run(s: Seq<char>, from: int)
    requires
        0 <= from <= s.len(),
    ensures
        from + digit_run(s, from) <= s.len(),
        all_digits(s.subrange(from, from + digit_run(s, from))),
        from + digit_run(s, from) < s.len() ==> !is_digit(s[from + digit_run(s, from)]),
    decreases s.len() - from,
{
    if from < s.len() && is_digit(s[from]) {
        lemma_digit_run(s, from + 1);
        let n = digit_run(s, from);
        let run = s.subrange(from, from + n);
        let rest = s.subrange(from + 1, from + n);
        assert forall|i: int| 0 <= i < run.len() implies is_digit(#[trigger] run[i]) by {
            if i > 0 {
                assert(run[i] == rest[i - 1]);
            }
        }
    }
}

/// Digits followed by the end of the text, or by a character that is no
/// digit, are a whole run.
pub proof fn lemma_digit_run_unique(s: Seq<char>, from: int, n: int)
    requires
        0 <= from,
        0 <= n,
        from + n <= s.len(),
        all_digits(s.subrange(from, from + n)),
        from + n < s.len() ==> !is_digit(s[from + n]),
    ensures
        digit_run(s, from) == n,
    decreases n,
{
    if n > 0 {
        assert(s.subrange(from, from + n)[0] == s[from]);
        assert forall|i: int| 0 <= i < n - 1 implies is_digit(
            #[trigger] s.subrange(from + 1, from + n)[i],
        ) by {
            assert(s.subrange(from + 1, from + n)[i] == s.subrange(from, from + n)[i + 1]);
        }
        lemma_digit_run_unique(s, from + 1, n - 1);
    }
}

/// The length of the run of digits that starts at `from`.
pub fn scan_digits(bytes: &[u8], from: usize) -> (n: usize)
    requires
        from <= bytes.len(),
    ensures
        n == digit_run(ascii_text(bytes@), from as int),
        from + n <= bytes.len(),
{
    let ghost text = ascii_text(bytes@);
    let mut end: usize = from;
    while end < bytes.len() && 48 <= bytes[end] && bytes[end] <= 57
        invariant
            from <= end <= bytes.len(),
            text == ascii_text(bytes@),
            all_digits(text.subrange(from as int, end as int)),
        decreases bytes.len() - end,
    {
        proof {
            let before = text.subrange(from as int, end as int);
            let after = text.subrange(from as int, end + 1);
            assert forall|i: int| 0 <= i < after.len() implies is_digit(#[trigger] after[i]) by {
                if i < before.len() {
                    assert(after[i] == before[i]);
                }
            }
        }
        end += 1;
    }
    proof {
        lemma_digit_run_unique(text, from as int, end - from);
    }
    end - from
}

/// The value of the digits `bytes[from..to]`, if it fits 64 bits.
pub fn read_digits(bytes: &[u8], from: usize, to: usize) -> (r: Option<u64>)
    requires
        from <= to <= bytes.len(),
        all_digits(ascii_text(bytes@).subrange(from as int, to as int)),
    ensures
        r is Some <==> decimal_value(ascii_text(bytes@).subrange(from as int, to as int))
            <= u64::MAX,
        r matches Some(v) ==> v == decimal_value(
            ascii_text(bytes@).subrange(from as int, to as int),
        ),
{
    let ghost digits = ascii_text(bytes@).subrange(from as int, to as int);
    let mut value: u64 = 0;
    let mut at: usize = from;
    while at < to
        invariant
            from <= at <= to <= bytes.len(),
            digits == ascii_text(bytes@).subrange(from as int, to as int),
            all_digits(digits),
            value == decimal_value(digits.subrange(0, at - from)),
        decreases to - at,
    {
        let ghost prefix = digits.subrange(0, at - from);
        let ghost next = digits.subrange(0, at - from + 1);
        proof {
            assert(digits.subrange(0, 0).len() == 0);
            assert(is_digit(digits[at - from]));
            assert(digits[at - from] == bytes[at as int] as char);
            assert(next.drop_last() =~= prefix);
            assert(next.last() == digits[at - from]);
            lemma_value_prefix(digits, at - from + 1);
        }
        let digit: u64 = (bytes[at] - 48) as u64;
        assert(digit == digit_value(digits[at - from]));
        if value > (u64::MAX - digit) / 10 {
            assert(decimal_value(next) > u64::MAX) by (nonlinear_arith)
                requires
                    decimal_value(next) == 10 * value + digit,
                    value > (u64::MAX - digit) / 10,
                    digit < 10,
            ;
            return None;
        }
        assert(10 * value + digit <= u64::MAX) by (nonlinear_arith)
            requires
                value <= (u64::MAX - digit) / 10,
                digit < 10,
        ;
        value = 10 * value + digit;
        at += 1;
    }
    proof {
        assert(digits.subrange(0, to - from) =~= digits);
        if from == to {
            assert(digits.len() == 0);
        }
    }
    Some(value)
}

/// The 64-bit number that the literal `s` denotes: an optional `+`, then one
/// or more digits, whose value fits 64 bits.
pub fn parse_u64(s: &str) -> (r: Option<u64>)
    ensures
        r == u64_of_literal(s@),
{
    let bytes = match ascii_bytes(s) {
        Some(bytes) => bytes,
        None => {
            proof {
                if is_decimal_literal(s@) {
                    lemma_literal_is_ascii(s@);
                }
            }
            return None;
        },
    };
    let ghost text = ascii_text(bytes@);
    let from: usize = if bytes.len() > 0 && bytes[0] == 43 {
        1
    } else {
        0
    };
    assert(literal_digits(text) =~= text.subrange(from as int, text.len() as int));
    let run = scan_digits(bytes, from);
    proof {
        lemma_digit_run(text, from as int);
        if from + run < bytes.len() {
            let digits = text.subrange(from as int, text.len() as int);
            assert(digits[run as int] == text[from + run]);
        }
    }
    if run == 0 || from + run != bytes.len() {
        return None;
    }
    read_digits(bytes, from, bytes.len())
}

/// The one-character text of the digit of `d`.
fn digit_str(d: u64) -> (s: &'static str)
    requires
        d < 10,
    ensures
        s@ == seq![digit_char(d as nat)],
{
    proof {
        reveal_strlit("0");
        reveal_strlit("1");
        reveal_strlit("2");
        reveal_strlit("3");
        reveal_strlit("4");
        reveal_strlit("5");
        reveal_strlit("6");
        reveal_strlit("7");
        reveal_strlit("8");
        reveal_strlit("9");
    }
    let s = match d {
        0 => "0",
        1 => "1",
        2 => "2",
        3 => "3",
        4 => "4",
        5 => "5",
        6 => "6",
        7 => "7",
        8 => "8",
        _ => "9",
    };
    assert(s@ =~= seq![digit_char(d as nat)]);
    s
}

/// Appends `n`, written in base ten without leading zeros, to `out`.
pub fn push_decimal(out: &mut String, n: u64)
    ensures
        final(out)@ == old(out)@ + decimal_text(n as nat),
    decreases n,
{
    if n >= 10 {
        push_decimal(out, n / 10);
    }
    out.append(digit_str(n % 10));
    proof {
        if n >= 10 {
            assert(out@ =~= old(out)@ + decimal_text(n as nat));
        } else {
            assert(out@ =~= old(out)@ + decimal_text(n as nat));
        }
    }
}

} // verus!
