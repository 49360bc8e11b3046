//! The 64-bit Steam identifier: its bit layout, its enumerations and its
//! textual forms.

pub mod bits;
pub mod decimal;
pub mod forms;
pub mod kinds;
pub mod laws;

pub use kinds::AccountInstance;
pub use kinds::AccountType;
pub use kinds::Universe;

use bits::account_id_of;
use bits::field_get;
use bits::field_set;
use bits::instance_of;
use bits::pack;
use bits::type_of;
use bits::universe_of;
use decimal::ascii_bytes;
use decimal::decimal_text;
use decimal::parse_u64;
use decimal::push_decimal;
use decimal::u64_of_literal;
use forms::bracketed_fields;
use forms::is_bracketed_text;
use forms::is_legacy_text;
use forms::legacy_fields;
use forms::scan_bracketed;
use forms::scan_legacy;
use forms::BracketedFields;
use forms::LegacyFields;
use vstd::prelude::*;
use vstd::string::*;

verus! {

/// A SteamID64: the 64-bit number that identifies an account on Steam. It
/// packs an account id, an instance, an account type and a universe.
#[derive(Clone, Copy, Debug, Eq, PartialEq, Hash, Structural)]
pub struct SteamId(pub u64);

/// Why a text or a field value was not accepted.
#[derive(Debug, PartialEq, Eq, PartialOrd, Ord)]
pub enum SteamIdError {
    /// The text is in none of the three forms.
    Invalid,
    /// The named quantity is above the given limit.
    TooBig(String, u64),
}

/// What a `SteamIdError` says, with its text as a sequence of characters.
pub enum SteamIdErrorView {
    Invalid,
    TooBig(Seq<char>, u64),
}

impl View for SteamIdError {
    type V = SteamIdErrorView;

    open spec fn view(&self) -> SteamIdErrorView {
        match self {
            SteamIdError::Invalid => SteamIdErrorView::Invalid,
            SteamIdError::TooBig(what, limit) => SteamIdErrorView::TooBig(what@, *limit),
        }
    }
}

/// The error for a universe above its field's width.
pub open spec fn universe_too_big() -> SteamIdErrorView {
    SteamIdErrorView::TooBig("Account universe"@, 0xFF)
}

/// The error for an instance above its field's width.
pub open spec fn instance_too_big() -> SteamIdErrorView {
    SteamIdErrorView::TooBig("Account instance"@, 0xF_FFFF)
}

/// The error for an account type above its field's width.
pub open spec fn type_too_big() -> SteamIdErrorView {
    SteamIdErrorView::TooBig("Account type"@, 0xF)
}

/// The error for an account id above its field's width.
pub open spec fn account_id_too_big() -> SteamIdErrorView {
    SteamIdErrorView::TooBig("Account ID"@, 0xFFFF_FFFF)
}

impl SteamIdError {
    /// What the error says in words.
    pub open spec fn message(self) -> Seq<char> {
        match self {
            SteamIdError::Invalid => "Provided SteamID is invalid."@,
            SteamIdError::TooBig(what, limit) => what@ + " cannot be bigger than "@ + decimal_text(
                limit as nat,
            ) + "."@,
        }
    }

    /// What the error says in words: that the identifier is invalid, or which
    /// quantity cannot be bigger than which limit.
    pub fn to_string(&self) -> (text: String)
        ensures
            text@ == self.message(),
    {
        match self {
            SteamIdError::Invalid => "Provided SteamID is invalid.".to_owned(),
            SteamIdError::TooBig(what, limit) => {
                let mut text = what.clone();
                text.append(" cannot be bigger than ");
                push_decimal(&mut text, *limit);
                text.append(".");
                text
            },
        }
    }
}

/// The error of reading an identifier from a text that is no decimal number.
#[derive(Debug, Clone, Copy, PartialEq, Eq, Structural)]
pub struct ParseSteamIdError;

impl ParseSteamIdError {
    /// What the error says in words.
    pub fn to_string(&self) -> (text: String)
        ensures
            text@ == "Failed to parse SteamID"@,
    {
        "Failed to parse SteamID".to_owned()
    }
}

/// The error for an account number above the 32 bits of an account id.
pub open spec fn number_too_big() -> SteamIdErrorView {
    SteamIdErrorView::TooBig("SteamID"@, 0xFFFF_FFFF)
}

/// What the fields of a text in the legacy form decode to. The account
/// number is refused above 32 bits. The universe `0` is read as `1`, the
/// public universe. The account id is twice the account number plus the
/// authentication server's bit, and is refused above 32 bits. The instance
/// is `Desktop` and the account type `Individual`.
pub open spec fn decode_legacy(fields: LegacyFields) -> Result<SteamId, SteamIdErrorView> {
    let universe = if fields.universe == 0 {
        1
    } else {
        fields.universe
    };
    if fields.number > 0xFFFF_FFFF {
        Err(number_too_big())
    } else if 2 * fields.number + fields.auth_server > 0xFFFF_FFFF {
        Err(account_id_too_big())
    } else {
        Ok(
            SteamId(
                pack(
                    universe,
                    AccountType::Individual.spec_to_u64(),
                    AccountInstance::Desktop.spec_to_u64(),
                    (2 * fields.number + fields.auth_server) as u64,
                ),
            ),
        )
    }
}

/// The instance that the fields of a text in the bracketed form denote:
/// `FlagClan` for the letter `c` and `FlagLobby` for `L`; else the instance
/// that the text gives; else `Desktop` for the letter `U` and `All` for the
/// others.
pub open spec fn bracketed_instance(fields: BracketedFields) -> AccountInstance {
    if fields.letter == 'c' {
        AccountInstance::FlagClan
    } else if fields.letter == 'L' {
        AccountInstance::FlagLobby
    } else {
        match fields.instance {
            Some(instance) => instance,
            None => if fields.letter == 'U' {
                AccountInstance::Desktop
            } else {
                AccountInstance::All
            },
        }
    }
}

/// What the fields of a text in the bracketed form decode to. The account
/// number is refused above 32 bits, and is the account id. The universe is
/// stored as given, and the account type is the one of the letter.
pub open spec fn decode_bracketed(fields: BracketedFields) -> Result<SteamId, SteamIdErrorView> {
    if fields.number > 0xFFFF_FFFF {
        Err(number_too_big())
    } else {
        Ok(
            SteamId(
                pack(
                    fields.universe,
                    AccountType::spec_from_letter(fields.letter).spec_to_u64(),
                    bracketed_instance(fields).spec_to_u64(),
                    fields.number,
                ),
            ),
        )
    }
}

/// What a text in any of the three forms decodes to. The legacy form is
/// tried first, then the bracketed form, then the decimal literal; a text in
/// none of them is invalid.
pub open spec fn decode_smart(text: Seq<char>) -> Result<SteamId, SteamIdErrorView> {
    if is_legacy_text(text) {
        decode_legacy(legacy_fields(text))
    } else if is_bracketed_text(text) {
        decode_bracketed(bracketed_fields(text))
    } else {
        match u64_of_literal(text) {
            Some(value) => Ok(SteamId(value)),
            None => Err(SteamIdErrorView::Invalid),
        }
    }
}

/// What a text that came over the wire decodes to: the identifier whose
/// number the decimal literal denotes, and nothing for any other text.
pub open spec fn decode_wire(text: Seq<char>) -> Option<SteamId> {
    match u64_of_literal(text) {
        Some(value) => Some(SteamId(value)),
        None => None,
    }
}

/// Whether the result of decoding, and the error where it is one, are what
/// `expected` says.
pub open spec fn decoded_as(
    r: Result<SteamId, SteamIdError>,
    expected: Result<SteamId, SteamIdErrorView>,
) -> bool {
    match r {
        Ok(id) => expected == Ok::<SteamId, SteamIdErrorView>(id),
        Err(e) => expected == Err::<SteamId, SteamIdErrorView>(e@),
    }
}

/// The letter that the bracketed form shows for an account type and an
/// instance: `c` for a chat whose instance has the clan flag, `L` for a chat
/// whose instance has the lobby flag and not the clan flag, and the type's
/// own letter for the rest.
pub open spec fn bracketed_letter(account_type: AccountType, instance: u32) -> char {
    if account_type == AccountType::Chat && instance & 524288 != 0 {
        'c'
    } else if account_type == AccountType::Chat && instance & 262144 != 0 {
        'L'
    } else {
        account_type.spec_letter()
    }
}

/// Whether the bracketed form shows the instance of an account of this type.
pub open spec fn shows_instance(account_type: AccountType) -> bool {
    account_type == AccountType::AnonGameServer || account_type == AccountType::Multiseat
}

impl SteamId {
    /// The identifier with the number `value`.
    pub open spec fn spec_new(value: u64) -> SteamId {
        SteamId(value)
    }

    /// The number of the identifier.
    pub open spec fn spec_into_u64(&self) -> u64 {
        self.0
    }

    /// The account id: the low 32 bits.
    pub open spec fn spec_account_id(&self) -> u32 {
        account_id_of(self.0) as u32
    }

    /// The instance: the 20 bits above the account id.
    pub open spec fn spec_account_instance(&self) -> u32 {
        instance_of(self.0) as u32
    }

    /// The account type that the 4 bits above the instance stand for;
    /// `Invalid` where they stand for none.
    pub open spec fn spec_account_type(&self) -> AccountType {
        AccountType::spec_from_u64(type_of(self.0))
    }

    /// The universe that the top 8 bits stand for; `Invalid` where they stand
    /// for none.
    pub open spec fn spec_universe(&self) -> Universe {
        Universe::spec_from_u64(universe_of(self.0))
    }

    /// The identifier in the decimal form: its number in base ten.
    pub open spec fn decimal_form(&self) -> Seq<char> {
        decimal_text(self.0 as nat)
    }

    /// The identifier in the legacy form: `STEAM_`, the number of its
    /// universe, the lowest bit of its account id, and the rest of its
    /// account id, with colons between them. The instance and the account
    /// type are not shown.
    pub open spec fn legacy_form(&self) -> Seq<char> {
        forms::legacy_prefix() + decimal_text(self.spec_universe().spec_to_u64() as nat)
            + seq![':'] + decimal_text((self.spec_account_id() & 1) as nat) + seq![':']
            + decimal_text((self.spec_account_id() >> 1) as nat)
    }

    /// The identifier in the bracketed form: in square brackets its letter,
    /// the number of its universe, its account id and, for the account types
    /// that show it, its instance, with colons between them.
    pub open spec fn bracketed_form(&self) -> Seq<char> {
        seq!['[', bracketed_letter(self.spec_account_type(), self.spec_account_instance()), ':']
            + decimal_text(self.spec_universe().spec_to_u64() as nat) + seq![':'] + decimal_text(
            self.spec_account_id() as nat,
        ) + (if shows_instance(self.spec_account_type()) {
            seq![':'] + decimal_text(self.spec_account_instance() as nat)
        } else {
            Seq::<char>::empty()
        }) + seq![']']
    }

    /// The identifier with the number `value`.
    #[verifier::when_used_as_spec(spec_new)]
    pub fn new(value: u64) -> (id: SteamId)
        ensures
            id == SteamId::spec_new(value),
            id.0 == value,
    {
        SteamId(value)
    }

    /// Reads an identifier from a text in any of its three forms: the legacy
    /// form `STEAM_U:A:W`, the bracketed form `[T:U:W]` or `[T:U:W:I]`, or a
    /// decimal literal. A text in none of them is `Invalid`; an account
    /// number or account id above 32 bits is `TooBig`.
    pub fn new_smart(value: &str) -> (r: Result<SteamId, SteamIdError>)
        ensures
            decoded_as(r, decode_smart(value@)),
    {
        let bytes = match ascii_bytes(value) {
            Some(bytes) => bytes,
            None => {
                proof {
                    if is_legacy_text(value@) {
                        forms::lemma_legacy_is_ascii(value@);
                    }
                    if is_bracketed_text(value@) {
                        forms::lemma_bracketed_is_ascii(value@);
                    }
                    if decimal::is_decimal_literal(value@) {
                        decimal::lemma_literal_is_ascii(value@);
                    }
                }
                return Err(SteamIdError::Invalid);
            },
        };
        if let Some(fields) = scan_legacy(bytes) {
            return SteamId::from_legacy_fields(fields);
        }
        if let Some(fields) = scan_bracketed(bytes) {
            return SteamId::from_bracketed_fields(fields);
        }
        match parse_u64(value) {
            Some(number) => Ok(SteamId::new(number)),
            None => Err(SteamIdError::Invalid),
        }
    }

    /// The identifier that the fields of a text in the legacy form denote.
    fn from_legacy_fields(fields: LegacyFields) -> (r: Result<SteamId, SteamIdError>)
        requires
            fields.universe <= 4,
            fields.auth_server <= 1,
        ensures
            decoded_as(r, decode_legacy(fields)),
    {
        let mut steam_id = SteamId::new(0);
        let account_id = fields.number;
        if account_id > 0xFFFF_FFFF {
            return Err(SteamIdError::TooBig("SteamID".to_owned(), 0xFFFF_FFFF));
        }
        let mut universe = fields.universe;
        if universe == Universe::Invalid.to_u64() {
            universe = Universe::Public.to_u64();
        }
        let auth_server = fields.auth_server;
        assert(account_id <= 0xFFFF_FFFF && auth_server <= 1 ==> ((account_id << 1) | auth_server)
            == 2 * account_id + auth_server) by (bit_vector);
        let account_id = (account_id << 1) | auth_server;
        match steam_id.set_account_universe(universe) {
            Ok(()) => {},
            Err(e) => { return Err(e); },
        }
        match steam_id.set_account_instance(AccountInstance::Desktop.to_u64()) {
            Ok(()) => {},
            Err(e) => { return Err(e); },
        }
        match steam_id.set_account_type(AccountType::Individual.to_u64()) {
            Ok(()) => {},
            Err(e) => { return Err(e); },
        }
        match steam_id.set_account_id(account_id) {
            Ok(()) => {},
            Err(e) => { return Err(e); },
        }
        Ok(steam_id)
    }

    /// The identifier that the fields of a text in the bracketed form denote.
    fn from_bracketed_fields(fields: BracketedFields) -> (r: Result<SteamId, SteamIdError>)
        requires
            fields.universe <= 4,
        ensures
            decoded_as(r, decode_bracketed(fields)),
    {
        let mut steam_id = SteamId::new(0);
        let account_id = fields.number;
        if account_id > 0xFFFF_FFFF {
            return Err(SteamIdError::TooBig("SteamID".to_owned(), 0xFFFF_FFFF));
        }
        let letter = fields.letter;
        let mut instance = match fields.instance {
            Some(instance) => instance,
            None => if letter == 'U' {
                AccountInstance::Desktop
            } else {
                AccountInstance::All
            },
        };
        let account_type = if letter == 'c' {
            instance = AccountInstance::FlagClan;
            AccountType::Chat
        } else if letter == 'L' {
            instance = AccountInstance::FlagLobby;
            AccountType::Chat
        } else {
            AccountType::from(letter)
        };
        match steam_id.set_account_type(account_type.to_u64()) {
            Ok(()) => {},
            Err(e) => { return Err(e); },
        }
        match steam_id.set_account_universe(fields.universe) {
            Ok(()) => {},
            Err(e) => { return Err(e); },
        }
        match steam_id.set_account_instance(instance.to_u64()) {
            Ok(()) => {},
            Err(e) => { return Err(e); },
        }
        match steam_id.set_account_id(account_id) {
            Ok(()) => {},
            Err(e) => { return Err(e); },
        }
        Ok(steam_id)
    }

    /// Sets the universe. A value above `0xFF` is refused and leaves the
    /// identifier as it was; any other is written to the universe's field and
    /// changes no other field.
    pub fn set_account_universe(&mut self, value: u64) -> (r: Result<(), SteamIdError>)
        ensures
            r is Ok <==> value <= 0xFF,
            r is Ok ==> final(self).0 == pack(
                value,
                type_of(old(self).0),
                instance_of(old(self).0),
                account_id_of(old(self).0),
            ),
            r is Ok ==> universe_of(final(self).0) == value && type_of(final(self).0) == type_of(
                old(self).0,
            ) && instance_of(final(self).0) == instance_of(old(self).0) && account_id_of(
                final(self).0,
            ) == account_id_of(old(self).0),
            r matches Err(e) ==> e@ == universe_too_big() && *final(self) == *old(self),
    {
        if value > 0xFF {
            return Err(SteamIdError::TooBig("Account universe".to_owned(), 0xFF));
        }
        self.set(56, 0xFF, value);
        proof {
            bits::lemma_set_universe(old(self).0, value);
            bits::lemma_fields_in_range(old(self).0);
            bits::lemma_unpack_pack(
                value,
                type_of(old(self).0),
                instance_of(old(self).0),
                account_id_of(old(self).0),
            );
        }
        Ok(())
    }

    /// Sets the instance. A value above `0xFFFFF` is refused and leaves the
    /// identifier as it was; any other is written to the instance's field and
    /// changes no other field.
    pub fn set_account_instance(&mut self, value: u64) -> (r: Result<(), SteamIdError>)
        ensures
            r is Ok <==> value <= 0xF_FFFF,
            r is Ok ==> final(self).0 == pack(
                universe_of(old(self).0),
                type_of(old(self).0),
                value,
                account_id_of(old(self).0),
            ),
            r is Ok ==> universe_of(final(self).0) == universe_of(old(self).0) && type_of(
                final(self).0,
            ) == type_of(old(self).0) && instance_of(final(self).0) == value && account_id_of(
                final(self).0,
            ) == account_id_of(old(self).0),
            r matches Err(e) ==> e@ == instance_too_big() && *final(self) == *old(self),
    {
        if value > 0xFFFFF {
            return Err(SteamIdError::TooBig("Account instance".to_owned(), 0xFFFFF));
        }
        self.set(32, 0xFFFFF, value);
        proof {
            bits::lemma_set_instance(old(self).0, value);
            bits::lemma_fields_in_range(old(self).0);
            bits::lemma_unpack_pack(
                universe_of(old(self).0),
                type_of(old(self).0),
                value,
                account_id_of(old(self).0),
            );
        }
        Ok(())
    }

    /// Sets the account type. A value above `0xF` is refused and leaves the
    /// identifier as it was; any other is written to the type's field and
    /// changes no other field.
    pub fn set_account_type(&mut self, value: u64) -> (r: Result<(), SteamIdError>)
        ensures
            r is Ok <==> value <= 0xF,
            r is Ok ==> final(self).0 == pack(
                universe_of(old(self).0),
                value,
                instance_of(old(self).0),
                account_id_of(old(self).0),
            ),
            r is Ok ==> universe_of(final(self).0) == universe_of(old(self).0) && type_of(
                final(self).0,
            ) == value && instance_of(final(self).0) == instance_of(old(self).0)
                && account_id_of(final(self).0) == account_id_of(old(self).0),
            r matches Err(e) ==> e@ == type_too_big() && *final(self) == *old(self),
    {
        if value > 0xF {
            return Err(SteamIdError::TooBig("Account type".to_owned(), 0xF));
        }
        self.set(52, 0xF, value);
        proof {
            bits::lemma_set_type(old(self).0, value);
            bits::lemma_fields_in_range(old(self).0);
            bits::lemma_unpack_pack(
                universe_of(old(self).0),
                value,
                instance_of(old(self).0),
                account_id_of(old(self).0),
            );
        }
        Ok(())
    }

    /// Sets the account id. A value above `0xFFFFFFFF` is refused and leaves
    /// the identifier as it was; any other is written to the account id's
    /// field and changes no other field.
    pub fn set_account_id(&mut self, value: u64) -> (r: Result<(), SteamIdError>)
        ensures
            r is Ok <==> value <= 0xFFFF_FFFF,
            r is Ok ==> final(self).0 == pack(
                universe_of(old(self).0),
                type_of(old(self).0),
                instance_of(old(self).0),
                value,
            ),
            r is Ok ==> universe_of(final(self).0) == universe_of(old(self).0) && type_of(
                final(self).0,
            ) == type_of(old(self).0) && instance_of(final(self).0) == instance_of(old(self).0)
                && account_id_of(final(self).0) == value,
            r matches Err(e) ==> e@ == account_id_too_big() && *final(self) == *old(self),
    {
        if value > 0xFFFFFFFF {
            return Err(SteamIdError::TooBig("Account ID".to_owned(), 0xFFFFFFFF));
        }
        self.set(0, 0xFFFFFFFF, value);
        proof {
            bits::lemma_set_account_id(old(self).0, value);
            bits::lemma_fields_in_range(old(self).0);
            bits::lemma_unpack_pack(
                universe_of(old(self).0),
                type_of(old(self).0),
                instance_of(old(self).0),
                value,
            );
        }
        Ok(())
    }

    /// Clears the field at `offset` and fills it with the bits of `value`
    /// that `mask` lets through.
    fn set(&mut self, offset: u8, mask: u64, value: u64)
        requires
            offset < 64,
        ensures
            final(self).0 == field_set(old(self).0, offset as u64, mask, value),
    {
        self.0 = (self.0 & !(mask << offset)) | ((value & mask) << offset);
    }

    /// The field at `offset`, as wide as `mask`.
    fn get(&self, offset: u8, mask: u64) -> (field: u64)
        requires
            offset < 64,
        ensures
            field == field_get(self.0, offset as u64, mask),
            field <= mask,
    {
        let value: u64 = self.0;
        let field = (value >> offset) & mask;
        assert(((value >> (offset as u64)) & mask) <= mask) by (bit_vector);
        field
    }

    /// The number of the identifier.
    #[verifier::when_used_as_spec(spec_into_u64)]
    pub fn into_u64(&self) -> (value: u64)
        ensures
            value == self.spec_into_u64(),
            value == self.0,
    {
        self.0
    }

    /// The account id: the low 32 bits of the identifier.
    #[verifier::when_used_as_spec(spec_account_id)]
    pub fn get_account_id(&self) -> (id: u32)
        ensures
            id == self.spec_account_id(),
            id == account_id_of(self.0),
    {
        self.get(0, 0xFFFFFFFF) as u32
    }

    /// The instance: the 20 bits above the account id. `AccountInstance`
    /// names some of its values.
    #[verifier::when_used_as_spec(spec_account_instance)]
    pub fn get_account_instance(&self) -> (instance: u32)
        ensures
            instance == self.spec_account_instance(),
            instance == instance_of(self.0),
    {
        self.get(32, 0xFFFFF) as u32
    }

    /// The universe that the identifier belongs to; `Invalid` where the
    /// universe's field holds a number that stands for none.
    #[verifier::when_used_as_spec(spec_universe)]
    pub fn get_universe(&self) -> (universe: Universe)
        ensures
            universe == self.spec_universe(),
    {
        Universe::from_u64(self.get(56, 0xFF))
    }

    /// The account type of the identifier; `Invalid` where the type's field
    /// holds a number that stands for none.
    #[verifier::when_used_as_spec(spec_account_type)]
    pub fn get_account_type(&self) -> (account_type: AccountType)
        ensures
            account_type == self.spec_account_type(),
    {
        AccountType::from_u64(self.get(52, 0xF))
    }

    /// The identifier in the decimal form: its number in base ten, without
    /// leading zeros.
    pub fn to_string(&self) -> (text: String)
        ensures
            text@ == self.decimal_form(),
    {
        let mut text = String::new();
        push_decimal(&mut text, self.0);
        text
    }

    /// The identifier in the legacy form, `STEAM_U:A:W`: the number of its
    /// universe, the lowest bit of its account id, and the rest of its
    /// account id. The instance and the account type are not shown, so only
    /// an identifier that was read from the legacy form is read back from it.
    pub fn to_id2_string(&self) -> (text: String)
        ensures
            text@ == self.legacy_form(),
    {
        let id = self.get_account_id();
        let mut text = "STEAM_".to_owned();
        proof {
            reveal_strlit("STEAM_");
            reveal_strlit(":");
            assert("STEAM_"@ =~= forms::legacy_prefix());
            assert(":"@ =~= seq![':']);
        }
        push_decimal(&mut text, self.get_universe().to_u64());
        text.append(":");
        push_decimal(&mut text, (id & 1) as u64);
        text.append(":");
        push_decimal(&mut text, (id >> 1) as u64);
        text
    }

    /// The identifier in the bracketed form, `[T:U:W]` or `[T:U:W:I]`. The
    /// letter is `c` for a chat with the clan flag in its instance, `L` for a
    /// chat with the lobby flag, and the letter of the account type
    /// otherwise. The instance is shown for anonymous game servers and
    /// multiseat accounts only.
    pub fn to_id3_string(&self) -> (text: String)
        ensures
            text@ == self.bracketed_form(),
    {
        let account_instance = self.get_account_instance();
        let account_type = self.get_account_type();
        let mut account_type_char: char = account_type.into();
        let mut render_instance = false;
        match account_type {
            AccountType::Chat => {
                if (account_instance & 524288) != 0 {
                    account_type_char = 'c';
                } else if (account_instance & 262144) != 0 {
                    account_type_char = 'L';
                }
            },
            AccountType::AnonGameServer | AccountType::Multiseat => {
                render_instance = true;
            },
            _ => {},
        }
        let universe = self.get_universe().to_u64();
        let account_id = self.get_account_id();
        let mut text = "[".to_owned();
        proof {
            reveal_strlit("[");
            reveal_strlit(":");
            reveal_strlit("]");
            assert("["@ =~= seq!['[']);
            assert(":"@ =~= seq![':']);
            assert("]"@ =~= seq![']']);
        }
        text.append(letter_text(account_type_char));
        text.append(":");
        push_decimal(&mut text, universe);
        text.append(":");
        push_decimal(&mut text, account_id as u64);
        if render_instance {
            text.append(":");
            push_decimal(&mut text, account_instance as u64);
        }
        text.append("]");
        assert(text@ =~= self.bracketed_form());
        text
    }
}

/// Whether `letter` is one that the bracketed form can show.
pub open spec fn is_shown_letter(letter: char) -> bool {
    letter == 'I' || letter == 'U' || letter == 'M' || letter == 'G' || letter == 'A' || letter
        == 'P' || letter == 'C' || letter == 'g' || letter == 'T' || letter == ' ' || letter
        == 'a' || letter == 'c' || letter == 'L'
}

/// The one-character text of a letter that the bracketed form can show.
fn letter_text(letter: char) -> (text: &'static str)
    requires
        is_shown_letter(letter),
    ensures
        text@ == seq![letter],
{
    proof {
        reveal_strlit("I");
        reveal_strlit("U");
        reveal_strlit("M");
        reveal_strlit("G");
        reveal_strlit("A");
        reveal_strlit("P");
        reveal_strlit("C");
        reveal_strlit("g");
        reveal_strlit("T");
        reveal_strlit(" ");
        reveal_strlit("a");
        reveal_strlit("c");
        reveal_strlit("L");
    }
    let text = match letter {
        'I' => "I",
        'U' => "U",
        'M' => "M",
        'G' => "G",
        'A' => "A",
        'P' => "P",
        'C' => "C",
        'g' => "g",
        'T' => "T",
        'a' => "a",
        'c' => "c",
        'L' => "L",
        _ => " ",
    };
    assert(text@ =~= seq![letter]);
    text
}

/// Reads the identifier that came over the wire as a text: a decimal
/// literal, and no other form.
pub fn de_steamid_from_str(text: &str) -> (r: Result<SteamId, ParseSteamIdError>)
    ensures
        r is Ok <==> decode_wire(text@) is Some,
        r matches Ok(id) ==> decode_wire(text@) == Some(id),
{
    match parse_u64(text) {
        Some(value) => Ok(SteamId::new(value)),
        None => Err(ParseSteamIdError),
    }
}

/// Reads the identifier that came over the wire as a text, where the wire
/// may hold none: a decimal literal, and no other form.
pub fn de_steamid_from_str_opt(text: Option<&str>) -> (r: Result<
    Option<SteamId>,
    ParseSteamIdError,
>)
    ensures
        text is None ==> r == Ok::<Option<SteamId>, ParseSteamIdError>(None),
        text matches Some(t) ==> (r is Ok <==> decode_wire(t@) is Some),
        text matches Some(t) ==> (r matches Ok(id) ==> id == decode_wire(t@)),
{
    match text {
        None => Ok(None),
        Some(text) => match de_steamid_from_str(text) {
            Ok(id) => Ok(Some(id)),
            Err(e) => Err(e),
        },
    }
}

impl From<u64> for SteamId {
    /// The identifier with the number `value`.
    fn from(value: u64) -> (id: SteamId) {
        SteamId(value)
    }
}

impl vstd::std_specs::convert::FromSpecImpl<u64> for SteamId {
    open spec fn obeys_from_spec() -> bool {
        true
    }

    open spec fn from_spec(value: u64) -> SteamId {
        SteamId(value)
    }
}

} // verus!
