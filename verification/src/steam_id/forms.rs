//! The grammars of the two structured textual forms of an identifier: the
//! legacy form `STEAM_U:A:W` and the bracketed form `[T:U:W]` or `[T:U:W:I]`.

use super::decimal::all_digits;
use super::decimal::ascii_text;
use super::decimal::decimal_value;
use super::decimal::digit_run;
use super::decimal::digit_value;
use super::decimal::is_canonical_decimal;
use super::decimal::is_digit;
use super::decimal::lemma_digit_run;
use super::decimal::lemma_value_bound;
use super::decimal::pow10;
use super::decimal::read_digits;
use super::decimal::scan_digits;
use super::kinds::AccountInstance;
use vstd::prelude::*;
use vstd::utf8::is_ascii_chars;

verus! {

/// Whether `s` is an account number as both forms write it: `0`, or up to
/// ten digits of which the first is not `0`.
pub open spec fn is_account_number(s: Seq<char>) -> bool {
    is_canonical_decimal(s) && s.len() <= 10
}

/// Whether `c` is a universe digit, `0` to `4`.
pub open spec fn is_universe_digit(c: char) -> bool {
    '0' <= c <= '4'
}

/// What the legacy form starts with.
pub open spec fn legacy_prefix() -> Seq<char> {
    seq!['S', 'T', 'E', 'A', 'M', '_']
}

/// Whether `s` is in the legacy form: `STEAM_`, a universe digit, a colon,
/// the authentication server's bit as `0` or `1`, a colon, and an account
/// number, with nothing before or after.
pub open spec fn is_legacy_text(s: Seq<char>) -> bool {
    &&& s.len() >= 11
    &&& s.subrange(0, 6) == legacy_prefix()
    &&& is_universe_digit(s[6])
    &&& s[7] == ':'
    &&& (s[8] == '0' || s[8] == '1')
    &&& s[9] == ':'
    &&& is_account_number(s.subrange(10, s.len() as int))
}

/// The fields that a text in the legacy form holds, as numbers.
pub struct LegacyFields {
    /// The universe digit.
    pub universe: u64,
    /// The authentication server's bit.
    pub auth_server: u64,
    /// The account number, which is half the account id.
    pub number: u64,
}

/// The fields of a text in the legacy form.
pub open spec fn legacy_fields(s: Seq<char>) -> LegacyFields {
    LegacyFields {
        universe: digit_value(s[6]) as u64,
        auth_server: digit_value(s[8]) as u64,
        number: decimal_value(s.subrange(10, s.len() as int)) as u64,
    }
}

/// Whether `c` is one of the letters that the bracketed form names an
/// account type with.
pub open spec fn is_type_letter(c: char) -> bool {
    c == 'A' || c == 'G' || c == 'M' || c == 'P' || c == 'C' || c == 'g' || c == 'c' || c == 'L'
        || c == 'T' || c == 'I' || c == 'U' || c == 'a' || c == 'i'
}

/// Where the account number of a text in the bracketed form ends.
pub open spec fn bracketed_number_end(s: Seq<char>) -> int {
    5 + digit_run(s, 5) as int
}

/// Whether `s` is in the bracketed form: `[`, a type letter, a colon, a
/// universe digit, a colon, an account number, then either `]` or a colon,
/// one or more digits of an instance and `]`, with nothing before or after.
pub open spec fn is_bracketed_text(s: Seq<char>) -> bool {
    let end = bracketed_number_end(s);
    &&& s.len() >= 7
    &&& s[0] == '['
    &&& is_type_letter(s[1])
    &&& s[2] == ':'
    &&& is_universe_digit(s[3])
    &&& s[4] == ':'
    &&& is_account_number(s.subrange(5, end))
    &&& s.last() == ']'
    &&& (end == s.len() - 1 || (s[end] == ':' && end + 1 < s.len() - 1 && all_digits(
        s.subrange(end + 1, s.len() - 1),
    )))
}

/// Whether a text in the bracketed form gives an instance.
pub open spec fn bracketed_has_instance(s: Seq<char>) -> bool {
    bracketed_number_end(s) < s.len() - 1
}

/// The instance that the number `n` stands for; `All` where it stands for
/// none.
pub open spec fn instance_of_number(n: nat) -> AccountInstance {
    if n <= u64::MAX {
        AccountInstance::spec_from_u64(n as u64)
    } else {
        AccountInstance::All
    }
}

/// The fields that a text in the bracketed form holds.
pub struct BracketedFields {
    /// The type letter.
    pub letter: char,
    /// The universe digit.
    pub universe: u64,
    /// The account number, which is the account id.
    pub number: u64,
    /// The instance that the text gives, if it gives one.
    pub instance: Option<AccountInstance>,
}

/// The fields of a text in the bracketed form.
pub open spec fn bracketed_fields(s: Seq<char>) -> BracketedFields {
    let end = bracketed_number_end(s);
    BracketedFields {
        letter: s[1],
        universe: digit_value(s[3]) as u64,
        number: decimal_value(s.subrange(5, end)) as u64,
        instance: if bracketed_has_instance(s) {
            Some(instance_of_number(decimal_value(s.subrange(end + 1, s.len() - 1))))
        } else {
            None
        },
    }
}

/// Ten to the power of ten.
pub proof fn lemma_pow10_of_ten()
    ensures
        pow10(10) == 10_000_000_000,
{
    reveal_with_fuel(pow10, 11);
}

/// The power of ten grows with its exponent.
pub proof fn lemma_pow10_monotonic(a: nat, b: nat)
    requires
        a <= b,
    ensures
        pow10(a) <= pow10(b),
    decreases b,
{
    if a < b {
        lemma_pow10_monotonic(a, (b - 1) as nat);
    }
}

/// An account number is below ten to the power of ten.
pub proof fn lemma_account_number_bound(s: Seq<char>)
    requires
        is_account_number(s),
    ensures
        decimal_value(s) < 10_000_000_000,
{
    lemma_value_bound(s);
    lemma_pow10_monotonic(s.len(), 10);
    lemma_pow10_of_ten();
}

/// A text in the legacy form holds ASCII characters only.
pub proof fn lemma_legacy_is_ascii(s: Seq<char>)
    requires
        is_legacy_text(s),
    ensures
        is_ascii_chars(s),
{
    let number = s.subrange(10, s.len() as int);
    assert forall|i: int| 0 <= i < s.len() implies '\0' <= #[trigger] s[i] <= '\u{7f}' by {
        if i < 6 {
            assert(s[i] == s.subrange(0, 6)[i]);
        } else if i >= 10 {
            assert(is_digit(number[i - 10]));
        }
    }
}

/// A text in the bracketed form holds ASCII characters only.
pub proof fn lemma_bracketed_is_ascii(s: Seq<char>)
    requires
        is_bracketed_text(s),
    ensures
        is_ascii_chars(s),
{
    let end = bracketed_number_end(s);
    let number = s.subrange(5, end);
    assert forall|i: int| 0 <= i < s.len() implies '\0' <= #[trigger] s[i] <= '\u{7f}' by {
        if 5 <= i < end {
            assert(is_digit(number[i - 5]));
        } else if end < i < s.len() - 1 {
            assert(is_digit(s.subrange(end + 1, s.len() - 1)[i - end - 1]));
        }
    }
}

/// No text is in both forms, and none of either form is a decimal literal.
pub proof fn lemma_forms_apart(s: Seq<char>)
    ensures
        !(is_legacy_text(s) && is_bracketed_text(s)),
        is_legacy_text(s) || is_bracketed_text(s) ==> !super::decimal::is_decimal_literal(s),
{
    if is_legacy_text(s) {
        assert(s[0] == s.subrange(0, 6)[0]);
        assert(s[0] == 'S');
    }
    if is_legacy_text(s) || is_bracketed_text(s) {
        if super::decimal::is_decimal_literal(s) {
            let digits = super::decimal::literal_digits(s);
            assert(is_digit(digits[0]));
        }
    }
}

/// Whether the bytes from `from` on are an account number's digits, given
/// where their run of digits ends.
fn is_account_number_at(bytes: &[u8], from: usize, run: usize) -> (r: bool)
    requires
        from + run <= bytes.len(),
        run == digit_run(ascii_text(bytes@), from as int),
    ensures
        r == is_account_number(ascii_text(bytes@).subrange(from as int, from + run)),
{
    proof {
        lemma_digit_run(ascii_text(bytes@), from as int);
    }
    1 <= run && run <= 10 && (run == 1 || bytes[from] != 48)
}

/// The fields of `bytes`, if they are a text in the legacy form.
pub fn scan_legacy(bytes: &[u8]) -> (r: Option<LegacyFields>)
    ensures
        r is Some <==> is_legacy_text(ascii_text(bytes@)),
        r matches Some(fields) ==> fields == legacy_fields(ascii_text(bytes@)),
{
    let ghost text = ascii_text(bytes@);
    if bytes.len() < 11 {
        return None;
    }
    if bytes[0] != 83 || bytes[1] != 84 || bytes[2] != 69 || bytes[3] != 65 || bytes[4] != 77
        || bytes[5] != 95 {
        proof {
            if text.subrange(0, 6) == legacy_prefix() {
                assert(text.subrange(0, 6)[0] == text[0]);
                assert(text.subrange(0, 6)[1] == text[1]);
                assert(text.subrange(0, 6)[2] == text[2]);
                assert(text.subrange(0, 6)[3] == text[3]);
                assert(text.subrange(0, 6)[4] == text[4]);
                assert(text.subrange(0, 6)[5] == text[5]);
            }
        }
        return None;
    }
    assert(text.subrange(0, 6) =~= legacy_prefix());
    if bytes[6] < 48 || bytes[6] > 52 || bytes[7] != 58 || (bytes[8] != 48 && bytes[8] != 49)
        || bytes[9] != 58 {
        return None;
    }
    let run = scan_digits(bytes, 10);
    proof {
        lemma_digit_run(text, 10);
        let number = text.subrange(10, text.len() as int);
        if 10 + run < bytes.len() {
            assert(number[run as int] == text[10 + run]);
        }
    }
    if 10 + run != bytes.len() || !is_account_number_at(bytes, 10, run) {
        return None;
    }
    proof {
        lemma_account_number_bound(text.subrange(10, text.len() as int));
    }
    let number = match read_digits(bytes, 10, bytes.len()) {
        Some(number) => number,
        None => { return None; },
    };
    Some(
        LegacyFields {
            universe: (bytes[6] - 48) as u64,
            auth_server: (bytes[8] - 48) as u64,
            number,
        },
    )
}

/// Whether `byte` is a type letter.
fn is_type_letter_byte(byte: u8) -> (r: bool)
    ensures
        r == is_type_letter(byte as char),
{
    byte == 65 || byte == 71 || byte == 77 || byte == 80 || byte == 67 || byte == 103 || byte
        == 99 || byte == 76 || byte == 84 || byte == 73 || byte == 85 || byte == 97 || byte == 105
}

/// The fields of `bytes`, if they are a text in the bracketed form.
pub fn scan_bracketed(bytes: &[u8]) -> (r: Option<BracketedFields>)
    ensures
        r is Some <==> is_bracketed_text(ascii_text(bytes@)),
        r matches Some(fields) ==> fields == bracketed_fields(ascii_text(bytes@)),
{
    let ghost text = ascii_text(bytes@);
    let len = bytes.len();
    if len < 7 {
        return None;
    }
    if bytes[0] != 91 || !is_type_letter_byte(bytes[1]) || bytes[2] != 58 || bytes[3] < 48
        || bytes[3] > 52 || bytes[4] != 58 || bytes[len - 1] != 93 {
        return None;
    }
    let run = scan_digits(bytes, 5);
    let end = 5 + run;
    proof {
        lemma_digit_run(text, 5);
        assert(!is_digit(text[len - 1]));
        if end > len - 1 {
            assert(text.subrange(5, end as int)[len - 1 - 5] == text[len - 1]);
        }
    }
    if !is_account_number_at(bytes, 5, run) {
        return None;
    }
    proof {
        lemma_account_number_bound(text.subrange(5, end as int));
    }
    let number = match read_digits(bytes, 5, end) {
        Some(number) => number,
        None => { return None; },
    };
    let instance = if end == len - 1 {
        None
    } else {
        if bytes[end] != 58 {
            return None;
        }
        let instance_run = scan_digits(bytes, end + 1);
        proof {
            lemma_digit_run(text, end + 1);
            let digits = text.subrange(end + 1, len - 1);
            if end + 1 + instance_run < len - 1 {
                assert(digits[instance_run as int] == text[end + 1 + instance_run]);
            }
            if end + 1 + instance_run > len - 1 {
                assert(text.subrange(end + 1, end + 1 + instance_run)[len - 1 - end - 1]
                    == text[len - 1]);
            }
        }
        if instance_run == 0 || end + 1 + instance_run != len - 1 {
            return None;
        }
        match read_digits(bytes, end + 1, len - 1) {
            Some(value) => Some(AccountInstance::from_u64(value)),
            None => Some(AccountInstance::All),
        }
    };
    Some(
        BracketedFields {
            letter: bytes[1] as char,
            universe: (bytes[3] - 48) as u64,
            number,
            instance,
        },
    )
}

} // verus!
