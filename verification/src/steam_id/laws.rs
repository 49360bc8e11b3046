//! What holds of the codec as a whole: how the three forms and the number
//! of an identifier go back and forth.

use super::bits::account_id_of;
use super::bits::instance_of;
use super::bits::lemma_fields_in_range;
use super::bits::lemma_pack_unpack;
use super::bits::lemma_unpack_pack;
use super::bits::pack;
use super::bits::type_of;
use super::bits::universe_of;
use super::decimal::decimal_text;
use super::decimal::decimal_value;
use super::decimal::digit_char;
use super::decimal::digit_value;
use super::decimal::is_canonical_decimal;
use super::decimal::is_decimal_literal;
use super::decimal::is_digit;
use super::decimal::lemma_decimal_text_canonical;
use super::decimal::lemma_digit_run_unique;
use super::decimal::pow10;
use super::decimal::lemma_text_of_value;
use super::decimal::lemma_value_of_text;
use super::decimal::literal_digits;
use super::decimal::u64_of_literal;
use super::decode_smart;
use super::decode_wire;
use super::forms::bracketed_fields;
use super::forms::bracketed_has_instance;
use super::forms::bracketed_number_end;
use super::forms::is_bracketed_text;
use super::forms::is_legacy_text;
use super::forms::legacy_fields;
use super::forms::legacy_prefix;
use super::forms::lemma_account_number_bound;
use super::forms::lemma_forms_apart;
use super::forms::lemma_pow10_of_ten;
use super::kinds::AccountInstance;
use super::kinds::AccountType;
use super::kinds::Universe;
use super::bracketed_letter;
use super::number_too_big;
use super::shows_instance;
use super::SteamId;
use super::SteamIdErrorView;
use vstd::prelude::*;

verus! {

/// An identifier made from a number has that number.
pub proof fn lemma_new_into_u64(value: u64)
    ensures
        SteamId::spec_new(value).spec_into_u64() == value,
{
}

/// Writing a value that fits to one field of an identifier leaves what the
/// other three fields decode to as it was, and the written field holds the
/// value.
pub proof fn lemma_field_independence(id: SteamId, value: u64)
    ensures
        value <= 0xFFFF_FFFF ==> ({
            let after = SteamId(pack(universe_of(id.0), type_of(id.0), instance_of(id.0), value));
            &&& after.spec_account_id() == value
            &&& after.spec_account_instance() == id.spec_account_instance()
            &&& after.spec_account_type() == id.spec_account_type()
            &&& after.spec_universe() == id.spec_universe()
        }),
        value <= 0xF_FFFF ==> ({
            let after = SteamId(
                pack(universe_of(id.0), type_of(id.0), value, account_id_of(id.0)),
            );
            &&& after.spec_account_id() == id.spec_account_id()
            &&& after.spec_account_instance() == value
            &&& after.spec_account_type() == id.spec_account_type()
            &&& after.spec_universe() == id.spec_universe()
        }),
        value <= 0xF ==> ({
            let after = SteamId(
                pack(universe_of(id.0), value, instance_of(id.0), account_id_of(id.0)),
            );
            &&& after.spec_account_id() == id.spec_account_id()
            &&& after.spec_account_instance() == id.spec_account_instance()
            &&& after.spec_account_type() == AccountType::spec_from_u64(value)
            &&& after.spec_universe() == id.spec_universe()
        }),
        value <= 0xFF ==> ({
            let after = SteamId(pack(value, type_of(id.0), instance_of(id.0), account_id_of(id.0)));
            &&& after.spec_account_id() == id.spec_account_id()
            &&& after.spec_account_instance() == id.spec_account_instance()
            &&& after.spec_account_type() == id.spec_account_type()
            &&& after.spec_universe() == Universe::spec_from_u64(value)
        }),
{
    lemma_fields_in_range(id.0);
    if value <= 0xFFFF_FFFF {
        lemma_unpack_pack(universe_of(id.0), type_of(id.0), instance_of(id.0), value);
    }
    if value <= 0xF_FFFF {
        lemma_unpack_pack(universe_of(id.0), type_of(id.0), value, account_id_of(id.0));
    }
    if value <= 0xF {
        lemma_unpack_pack(universe_of(id.0), value, instance_of(id.0), account_id_of(id.0));
    }
    if value <= 0xFF {
        lemma_unpack_pack(value, type_of(id.0), instance_of(id.0), account_id_of(id.0));
    }
}

/// An identifier written in the decimal form is read back as itself.
pub proof fn lemma_decimal_round_trip(id: SteamId)
    ensures
        decode_smart(id.decimal_form()) == Ok::<SteamId, SteamIdErrorView>(id),
        decode_wire(id.decimal_form()) == Some(id),
{
    let text = id.decimal_form();
    lemma_decimal_text_canonical(id.0 as nat);
    lemma_value_of_text(id.0 as nat);
    assert(is_digit(text[0]));
    assert(literal_digits(text) == text);
    assert(is_decimal_literal(text));
    lemma_forms_apart(text);
}

/// The text of a number below ten is its digit.
proof fn lemma_text_of_digit(c: char)
    requires
        is_digit(c),
    ensures
        decimal_text(digit_value(c)) == seq![c],
{
    assert(digit_char(digit_value(c)) == c);
}

/// Whether a text in the legacy form is read back from the identifier it
/// decodes to: its universe digit is not `0`, and its account number is
/// below 2 to the power of 31.
pub open spec fn is_faithful_legacy_text(text: Seq<char>) -> bool {
    &&& is_legacy_text(text)
    &&& text[6] != '0'
    &&& decimal_value(text.subrange(10, text.len() as int)) < 0x8000_0000
}

/// A text in the legacy form, with a universe other than `0` and an account
/// number that leaves room for the authentication server's bit, decodes to
/// an identifier whose legacy form is that text.
pub proof fn lemma_legacy_round_trip(text: Seq<char>)
    requires
        is_faithful_legacy_text(text),
    ensures
        decode_smart(text) is Ok,
        decode_smart(text)->Ok_0.legacy_form() == text,
{
    let fields = legacy_fields(text);
    let number = text.subrange(10, text.len() as int);
    let w = fields.number;
    let a = fields.auth_server;
    let u = fields.universe;
    assert(is_digit(text[6]) && is_digit(text[8]));
    assert(1 <= u <= 4);
    assert(a <= 1);
    let account_id = (2 * w + a) as u64;
    let id = decode_smart(text)->Ok_0;
    assert(id.0 == pack(u, 1, 1, account_id));
    lemma_unpack_pack(u, 1, 1, account_id);
    assert(id.spec_universe().spec_to_u64() == u);
    let low = id.spec_account_id();
    assert(low == account_id);
    assert(w < 0x8000_0000 && a <= 1 && low == 2 * w + a ==> (low & 1) == a && (low >> 1) == w)
        by (bit_vector);
    lemma_text_of_digit(text[6]);
    lemma_text_of_digit(text[8]);
    lemma_text_of_value(number);
    assert(text.subrange(0, 6) == legacy_prefix());
    let form = id.legacy_form();
    assert(form.len() == text.len());
    assert forall|i: int| 0 <= i < text.len() implies form[i] == text[i] by {
        if i < 6 {
            assert(text[i] == text.subrange(0, 6)[i]);
        } else if i >= 10 {
            assert(text[i] == number[i - 10]);
        }
    }
    assert(form =~= text);
}

/// A text in the legacy form never decodes to the invalid universe: the
/// universe digit `0` is read as the public universe, and every other digit
/// as the universe of that number.
pub proof fn lemma_legacy_universe(text: Seq<char>)
    requires
        is_legacy_text(text),
        decode_smart(text) is Ok,
    ensures
        decode_smart(text)->Ok_0.spec_universe() != Universe::Invalid,
        text[6] == '0' ==> decode_smart(text)->Ok_0.spec_universe() == Universe::Public,
        text[6] != '0' ==> decode_smart(text)->Ok_0.spec_universe().spec_to_u64() == digit_value(
            text[6],
        ),
        decode_smart(text)->Ok_0.spec_account_type() == AccountType::Individual,
        decode_smart(text)->Ok_0.spec_account_instance() == AccountInstance::Desktop.spec_to_u64(),
{
    let fields = legacy_fields(text);
    assert(is_digit(text[6]) && is_digit(text[8]));
    let universe = if fields.universe == 0 {
        1
    } else {
        fields.universe
    };
    let account_id = (2 * fields.number + fields.auth_server) as u64;
    lemma_unpack_pack(universe, 1, 1, account_id);
}

/// The letters `c` and `L` of the bracketed form both decode to a chat, the
/// first with the clan flag as its instance and the second with the lobby
/// flag, and each is the letter that the decoded identifier shows.
pub proof fn lemma_chat_letters(text: Seq<char>)
    requires
        is_bracketed_text(text),
        decode_smart(text) is Ok,
        text[1] == 'c' || text[1] == 'L',
    ensures
        decode_smart(text)->Ok_0.spec_account_type() == AccountType::Chat,
        text[1] == 'c' ==> decode_smart(text)->Ok_0.spec_account_instance()
            == AccountInstance::FlagClan.spec_to_u64(),
        text[1] == 'L' ==> decode_smart(text)->Ok_0.spec_account_instance()
            == AccountInstance::FlagLobby.spec_to_u64(),
        decode_smart(text)->Ok_0.bracketed_form()[1] == text[1],
{
    lemma_forms_apart(text);
    let fields = bracketed_fields(text);
    assert(is_digit(text[3]));
    let instance = super::bracketed_instance(fields).spec_to_u64();
    lemma_unpack_pack(fields.universe, 8, instance, fields.number);
    assert(524288u32 & 524288 != 0) by (bit_vector);
    assert(262144u32 & 524288 == 0) by (bit_vector);
    assert(262144u32 & 262144 != 0) by (bit_vector);
}

/// Whether a text in the bracketed form is read back from the identifier it
/// decodes to. Its account number fits 32 bits and its letter is not `i`.
/// With the letters `A` and `M` it gives an instance, written without
/// leading zeros, that has a name; with the others it gives none.
pub open spec fn is_faithful_bracketed_text(text: Seq<char>) -> bool {
    let end = bracketed_number_end(text);
    let instance = text.subrange(end + 1, text.len() - 1);
    &&& is_bracketed_text(text)
    &&& decimal_value(text.subrange(5, end)) <= 0xFFFF_FFFF
    &&& text[1] != 'i'
    &&& if text[1] == 'A' || text[1] == 'M' {
        &&& bracketed_has_instance(text)
        &&& is_canonical_decimal(instance)
        &&& decimal_value(instance) <= u64::MAX
        &&& AccountInstance::spec_try_from_u64(decimal_value(instance) as u64) is Some
    } else {
        !bracketed_has_instance(text)
    }
}

/// A text in the bracketed form that shows what its identifier holds, and
/// no more, decodes to an identifier whose bracketed form is that text.
pub proof fn lemma_bracketed_round_trip(text: Seq<char>)
    requires
        is_faithful_bracketed_text(text),
    ensures
        decode_smart(text) is Ok,
        decode_smart(text)->Ok_0.bracketed_form() == text,
{
    lemma_forms_apart(text);
    let end = bracketed_number_end(text);
    let number = text.subrange(5, end);
    let digits = text.subrange(end + 1, text.len() - 1);
    let fields = bracketed_fields(text);
    assert(is_digit(text[3]));
    assert(fields.universe <= 4);
    let account_type = AccountType::spec_from_letter(fields.letter);
    let instance = super::bracketed_instance(fields).spec_to_u64();
    let id = decode_smart(text)->Ok_0;
    assert(id.0 == pack(fields.universe, account_type.spec_to_u64(), instance, fields.number));
    lemma_unpack_pack(fields.universe, account_type.spec_to_u64(), instance, fields.number);
    assert(id.spec_universe().spec_to_u64() == fields.universe);
    assert(id.spec_account_type() == account_type);
    assert(id.spec_account_id() == fields.number);
    assert(id.spec_account_instance() == instance);
    assert(524288u32 & 524288 != 0) by (bit_vector);
    assert(262144u32 & 524288 == 0) by (bit_vector);
    assert(262144u32 & 262144 != 0) by (bit_vector);
    assert(0u32 & 524288 == 0 && 0u32 & 262144 == 0) by (bit_vector);
    assert(super::bracketed_letter(account_type, instance as u32) == text[1]);
    lemma_text_of_digit(text[3]);
    lemma_text_of_value(number);
    let form = id.bracketed_form();
    if super::shows_instance(account_type) {
        lemma_text_of_value(digits);
        assert(form.len() == text.len());
        assert forall|i: int| 0 <= i < text.len() implies form[i] == text[i] by {
            if 5 <= i < end {
                assert(text[i] == number[i - 5]);
            } else if end < i < text.len() - 1 {
                assert(text[i] == digits[i - end - 1]);
            }
        }
    } else {
        assert(form.len() == text.len());
        assert forall|i: int| 0 <= i < text.len() implies form[i] == text[i] by {
            if 5 <= i < end {
                assert(text[i] == number[i - 5]);
            }
        }
    }
    assert(form =~= text);
}

/// A text is invalid exactly when it is in none of the three forms. A text
/// in the legacy or the bracketed form whose account number is above 32 bits
/// is too big, whatever else it holds.
pub proof fn lemma_grammar_precedence(text: Seq<char>)
    ensures
        decode_smart(text) == Err::<SteamId, SteamIdErrorView>(SteamIdErrorView::Invalid) <==> !(
        is_legacy_text(text) || is_bracketed_text(text) || u64_of_literal(text) is Some),
        is_legacy_text(text) && decimal_value(text.subrange(10, text.len() as int)) > 0xFFFF_FFFF
            ==> decode_smart(text) == Err::<SteamId, SteamIdErrorView>(number_too_big()),
        !is_legacy_text(text) && is_bracketed_text(text) && decimal_value(
            text.subrange(5, bracketed_number_end(text)),
        ) > 0xFFFF_FFFF ==> decode_smart(text) == Err::<SteamId, SteamIdErrorView>(
            number_too_big(),
        ),
{
    if is_legacy_text(text) {
        lemma_account_number_bound(text.subrange(10, text.len() as int));
    }
    if is_bracketed_text(text) {
        lemma_account_number_bound(text.subrange(5, bracketed_number_end(text)));
    }
}

/// A text in the legacy or the bracketed form, which `new_smart` reads, is
/// refused where an identifier comes over the wire.
pub proof fn lemma_wire_takes_decimal_only(text: Seq<char>)
    requires
        is_legacy_text(text) || is_bracketed_text(text),
    ensures
        decode_wire(text) is None,
        !(decode_smart(text) == Err::<SteamId, SteamIdErrorView>(SteamIdErrorView::Invalid)),
{
    lemma_forms_apart(text);
    lemma_grammar_precedence(text);
}

/// A number below ten to the power of `k` is written with at most `k`
/// digits.
proof fn lemma_text_length(n: nat, k: nat)
    requires
        k >= 1,
        n < pow10(k),
    ensures
        decimal_text(n).len() <= k,
    decreases n,
{
    if n >= 10 {
        if k == 1 {
            assert(pow10(1) == 10) by {
                reveal_with_fuel(pow10, 2);
            }
        } else {
            lemma_text_length(n / 10, (k - 1) as nat);
        }
    }
}

/// Whether an identifier is one that the legacy form can show in full: an
/// individual's desktop account in one of the universes 1 to 4.
pub open spec fn is_legacy_identifier(id: SteamId) -> bool {
    &&& 1 <= universe_of(id.0) <= 4
    &&& type_of(id.0) == AccountType::Individual.spec_to_u64()
    &&& instance_of(id.0) == AccountInstance::Desktop.spec_to_u64()
}

/// An individual's desktop account in one of the universes 1 to 4, written
/// in the legacy form, is read back as itself.
pub proof fn lemma_legacy_read_back(id: SteamId)
    requires
        is_legacy_identifier(id),
    ensures
        is_legacy_text(id.legacy_form()),
        decode_smart(id.legacy_form()) == Ok::<SteamId, SteamIdErrorView>(id),
{
    let u = universe_of(id.0);
    let a = id.spec_account_id();
    let bit = (a & 1) as nat;
    let half = (a >> 1) as nat;
    let text = id.legacy_form();
    lemma_fields_in_range(id.0);
    assert(id.spec_universe().spec_to_u64() == u);
    assert((a & 1) <= 1 && (a >> 1) < 0x8000_0000 && 2 * (a >> 1) + (a & 1) == a)
        by (bit_vector);
    lemma_decimal_text_canonical(half);
    lemma_value_of_text(half);
    lemma_pow10_of_ten();
    lemma_text_length(half, 10);
    let number = decimal_text(half);
    assert(text.len() == 10 + number.len());
    assert(text.subrange(0, 6) =~= legacy_prefix());
    assert(text[6] == digit_char(u as nat));
    assert(text[7] == ':');
    assert(text[8] == digit_char(bit));
    assert(text[9] == ':');
    assert(text.subrange(10, text.len() as int) =~= number);
    assert(is_legacy_text(text));
    let fields = legacy_fields(text);
    assert(fields.universe == u);
    assert(fields.auth_server == bit);
    assert(fields.number == half);
    lemma_pack_unpack(id.0);
    assert(a == account_id_of(id.0));
}

/// Whether an identifier is one that the bracketed form can show in full.
/// Its universe is one of 0 to 4 and its account type has a letter. An
/// individual's instance is `Desktop`. The instance of an anonymous game
/// server or a multiseat account has a name. A chat's instance is `All`,
/// `FlagLobby` or `FlagClan`. The instance of every other type is `All`.
pub open spec fn is_bracketed_identifier(id: SteamId) -> bool {
    let instance = instance_of(id.0);
    &&& universe_of(id.0) <= 4
    &&& type_of(id.0) <= 10
    &&& id.spec_account_type() != AccountType::P2PSuperSeeder
    &&& if id.spec_account_type() == AccountType::Individual {
        instance == AccountInstance::Desktop.spec_to_u64()
    } else if shows_instance(id.spec_account_type()) {
        AccountInstance::spec_try_from_u64(instance) is Some
    } else if id.spec_account_type() == AccountType::Chat {
        instance == AccountInstance::All.spec_to_u64() || instance
            == AccountInstance::FlagLobby.spec_to_u64() || instance
            == AccountInstance::FlagClan.spec_to_u64()
    } else {
        instance == AccountInstance::All.spec_to_u64()
    }
}

/// An identifier that the bracketed form can show in full, written in the
/// bracketed form, is read back as itself.
pub proof fn lemma_bracketed_read_back(id: SteamId)
    requires
        is_bracketed_identifier(id),
    ensures
        is_bracketed_text(id.bracketed_form()),
        decode_smart(id.bracketed_form()) == Ok::<SteamId, SteamIdErrorView>(id),
{
    let u = universe_of(id.0);
    let account_type = id.spec_account_type();
    let instance = id.spec_account_instance();
    let a = id.spec_account_id();
    let text = id.bracketed_form();
    let letter = bracketed_letter(account_type, instance);
    lemma_fields_in_range(id.0);
    lemma_pack_unpack(id.0);
    assert(id.spec_universe().spec_to_u64() == u);
    assert(account_type.spec_to_u64() == type_of(id.0));
    assert(524288u32 & 524288 != 0) by (bit_vector);
    assert(262144u32 & 524288 == 0) by (bit_vector);
    assert(262144u32 & 262144 != 0) by (bit_vector);
    assert(0u32 & 524288 == 0 && 0u32 & 262144 == 0) by (bit_vector);
    let number = decimal_text(a as nat);
    lemma_decimal_text_canonical(a as nat);
    lemma_value_of_text(a as nat);
    lemma_pow10_of_ten();
    lemma_text_length(a as nat, 10);
    let end: int = 5 + number.len() as int;
    assert(text[0] == '[');
    assert(text[1] == letter);
    assert(text[2] == ':');
    assert(text[3] == digit_char(u as nat));
    assert(text[4] == ':');
    assert(text.subrange(5, end) =~= number);
    assert(text.last() == ']');
    if shows_instance(account_type) {
        let digits = decimal_text(instance as nat);
        lemma_decimal_text_canonical(instance as nat);
        lemma_value_of_text(instance as nat);
        assert(text.len() == end + 1 + digits.len() + 1);
        assert(text[end] == ':');
        assert(text.subrange(end + 1, text.len() - 1) =~= digits);
        lemma_digit_run_unique(text, 5, number.len() as int);
        assert(bracketed_number_end(text) == end);
        assert(is_bracketed_text(text));
        lemma_forms_apart(text);
        let fields = bracketed_fields(text);
        assert(fields.instance == Some(AccountInstance::spec_from_u64(instance as u64)));
        assert(decode_smart(text) == Ok::<SteamId, SteamIdErrorView>(id));
    } else {
        assert(text.len() == end + 1);
        assert(text[end] == ']');
        lemma_digit_run_unique(text, 5, number.len() as int);
        assert(bracketed_number_end(text) == end);
        assert(is_bracketed_text(text));
        lemma_forms_apart(text);
        let fields = bracketed_fields(text);
        assert(fields.instance is None);
        assert(decode_smart(text) == Ok::<SteamId, SteamIdErrorView>(id));
    }
}

} // verus!
