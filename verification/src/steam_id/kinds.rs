//! The enumerations that name the values of an identifier's fields.

use vstd::prelude::*;

verus! {

/// An instance of Steam that an account can belong to. `Public` is the one
/// that ordinary accounts live in.
#[derive(Copy, Clone, PartialEq, Eq, Debug, Structural)]
pub enum Universe {
    Invalid,
    Public,
    Beta,
    Internal,
    Dev,
}

impl Universe {
    /// The number that stands for this universe in an identifier.
    pub open spec fn spec_to_u64(self) -> u64 {
        match self {
            Universe::Invalid => 0,
            Universe::Public => 1,
            Universe::Beta => 2,
            Universe::Internal => 3,
            Universe::Dev => 4,
        }
    }

    /// The universe that `value` stands for, if it stands for one.
    pub open spec fn spec_try_from_u64(value: u64) -> Option<Universe> {
        if value == 0 {
            Some(Universe::Invalid)
        } else if value == 1 {
            Some(Universe::Public)
        } else if value == 2 {
            Some(Universe::Beta)
        } else if value == 3 {
            Some(Universe::Internal)
        } else if value == 4 {
            Some(Universe::Dev)
        } else {
            None
        }
    }

    /// The universe that `value` stands for; `Invalid` where it stands for
    /// none.
    pub open spec fn spec_from_u64(value: u64) -> Universe {
        match Universe::spec_try_from_u64(value) {
            Some(universe) => universe,
            None => Universe::Invalid,
        }
    }

    /// The number that stands for this universe in an identifier.
    #[verifier::when_used_as_spec(spec_to_u64)]
    pub fn to_u64(self) -> (value: u64)
        ensures
            value == self.spec_to_u64(),
    {
        match self {
            Universe::Invalid => 0,
            Universe::Public => 1,
            Universe::Beta => 2,
            Universe::Internal => 3,
            Universe::Dev => 4,
        }
    }

    /// The universe that `value` stands for, if it stands for one.
    pub fn try_from_u64(value: u64) -> (universe: Option<Universe>)
        ensures
            universe == Universe::spec_try_from_u64(value),
    {
        match value {
            0 => Some(Universe::Invalid),
            1 => Some(Universe::Public),
            2 => Some(Universe::Beta),
            3 => Some(Universe::Internal),
            4 => Some(Universe::Dev),
            _ => None,
        }
    }

    /// The universe that `value` stands for; `Invalid` where it stands for
    /// none.
    #[verifier::when_used_as_spec(spec_from_u64)]
    pub fn from_u64(value: u64) -> (universe: Universe)
        ensures
            universe == Universe::spec_from_u64(value),
    {
        match Universe::try_from_u64(value) {
            Some(universe) => universe,
            None => Universe::Invalid,
        }
    }

    /// Every universe is read back from its own number, and a number stands
    /// for a universe exactly when it is the number of the universe read
    /// from it.
    pub proof fn lemma_number_round_trip(universe: Universe, value: u64)
        ensures
            Universe::spec_try_from_u64(universe.spec_to_u64()) == Some(universe),
            Universe::spec_from_u64(universe.spec_to_u64()) == universe,
            Universe::spec_try_from_u64(value) is Some <==> value <= 4,
            Universe::spec_try_from_u64(value) is Some <==> Universe::spec_from_u64(
                value,
            ).spec_to_u64() == value,
    {
    }
}

/// What kind of account an identifier belongs to.
#[derive(Copy, Clone, PartialEq, Eq, Debug, Structural)]
pub enum AccountType {
    /// Used for bots and accounts which do not belong to another class.
    Invalid,
    /// Single user account.
    Individual,
    /// Multiseat (e.g. cybercafe) account.
    Multiseat,
    /// Game server account.
    GameServer,
    /// Anonymous game server account.
    AnonGameServer,
    /// Sometimes used to temporarily refer to Individual accounts until their
    /// credentials are verified with Steam.
    Pending,
    ContentServer,
    Clan,
    Chat,
    /// Fake identifier for a local PSN account on PS3 or Live account on 360,
    /// etc.
    P2PSuperSeeder,
    AnonUser,
}

impl AccountType {
    /// The number that stands for this account type in an identifier.
    pub open spec fn spec_to_u64(self) -> u64 {
        match self {
            AccountType::Invalid => 0,
            AccountType::Individual => 1,
            AccountType::Multiseat => 2,
            AccountType::GameServer => 3,
            AccountType::AnonGameServer => 4,
            AccountType::Pending => 5,
            AccountType::ContentServer => 6,
            AccountType::Clan => 7,
            AccountType::Chat => 8,
            AccountType::P2PSuperSeeder => 9,
            AccountType::AnonUser => 10,
        }
    }

    /// The account type that `value` stands for, if it stands for one.
    pub open spec fn spec_try_from_u64(value: u64) -> Option<AccountType> {
        if value == 0 {
            Some(AccountType::Invalid)
        } else if value == 1 {
            Some(AccountType::Individual)
        } else if value == 2 {
            Some(AccountType::Multiseat)
        } else if value == 3 {
            Some(AccountType::GameServer)
        } else if value == 4 {
            Some(AccountType::AnonGameServer)
        } else if value == 5 {
            Some(AccountType::Pending)
        } else if value == 6 {
            Some(AccountType::ContentServer)
        } else if value == 7 {
            Some(AccountType::Clan)
        } else if value == 8 {
            Some(AccountType::Chat)
        } else if value == 9 {
            Some(AccountType::P2PSuperSeeder)
        } else if value == 10 {
            Some(AccountType::AnonUser)
        } else {
            None
        }
    }

    /// The account type that `value` stands for; `Invalid` where it stands
    /// for none.
    pub open spec fn spec_from_u64(value: u64) -> AccountType {
        match AccountType::spec_try_from_u64(value) {
            Some(account_type) => account_type,
            None => AccountType::Invalid,
        }
    }

    /// The account type that the letter `letter` of the bracketed form stands
    /// for; `Invalid` for any other character.
    pub open spec fn spec_from_letter(letter: char) -> AccountType {
        if letter == 'I' || letter == 'i' {
            AccountType::Invalid
        } else if letter == 'U' {
            AccountType::Individual
        } else if letter == 'M' {
            AccountType::Multiseat
        } else if letter == 'G' {
            AccountType::GameServer
        } else if letter == 'A' {
            AccountType::AnonGameServer
        } else if letter == 'P' {
            AccountType::Pending
        } else if letter == 'C' {
            AccountType::ContentServer
        } else if letter == 'g' {
            AccountType::Clan
        } else if letter == 'T' || letter == 'L' || letter == 'c' {
            AccountType::Chat
        } else if letter == 'a' {
            AccountType::AnonUser
        } else {
            AccountType::Invalid
        }
    }

    /// The letter that stands for this account type in the bracketed form.
    /// `P2PSuperSeeder` has none and gives a blank. A chat's letter is `T`;
    /// the letters `L` and `c` of lobby and clan chats go by the instance.
    pub open spec fn spec_letter(self) -> char {
        match self {
            AccountType::Invalid => 'I',
            AccountType::Individual => 'U',
            AccountType::Multiseat => 'M',
            AccountType::GameServer => 'G',
            AccountType::AnonGameServer => 'A',
            AccountType::Pending => 'P',
            AccountType::ContentServer => 'C',
            AccountType::Clan => 'g',
            AccountType::Chat => 'T',
            AccountType::P2PSuperSeeder => ' ',
            AccountType::AnonUser => 'a',
        }
    }

    /// The number that stands for this account type in an identifier.
    #[verifier::when_used_as_spec(spec_to_u64)]
    pub fn to_u64(self) -> (value: u64)
        ensures
            value == self.spec_to_u64(),
    {
        match self {
            AccountType::Invalid => 0,
            AccountType::Individual => 1,
            AccountType::Multiseat => 2,
            AccountType::GameServer => 3,
            AccountType::AnonGameServer => 4,
            AccountType::Pending => 5,
            AccountType::ContentServer => 6,
            AccountType::Clan => 7,
            AccountType::Chat => 8,
            AccountType::P2PSuperSeeder => 9,
            AccountType::AnonUser => 10,
        }
    }

    /// The account type that `value` stands for, if it stands for one.
    pub fn try_from_u64(value: u64) -> (account_type: Option<AccountType>)
        ensures
            account_type == AccountType::spec_try_from_u64(value),
    {
        match value {
            0 => Some(AccountType::Invalid),
            1 => Some(AccountType::Individual),
            2 => Some(AccountType::Multiseat),
            3 => Some(AccountType::GameServer),
            4 => Some(AccountType::AnonGameServer),
            5 => Some(AccountType::Pending),
            6 => Some(AccountType::ContentServer),
            7 => Some(AccountType::Clan),
            8 => Some(AccountType::Chat),
            9 => Some(AccountType::P2PSuperSeeder),
            10 => Some(AccountType::AnonUser),
            _ => None,
        }
    }

    /// The account type that `value` stands for; `Invalid` where it stands
    /// for none.
    #[verifier::when_used_as_spec(spec_from_u64)]
    pub fn from_u64(value: u64) -> (account_type: AccountType)
        ensures
            account_type == AccountType::spec_from_u64(value),
    {
        match AccountType::try_from_u64(value) {
            Some(account_type) => account_type,
            None => AccountType::Invalid,
        }
    }

    /// Every account type is read back from its own number, and a number
    /// stands for an account type exactly when it is the number of the type
    /// read from it.
    pub proof fn lemma_number_round_trip(account_type: AccountType, value: u64)
        ensures
            AccountType::spec_try_from_u64(account_type.spec_to_u64()) == Some(account_type),
            AccountType::spec_from_u64(account_type.spec_to_u64()) == account_type,
            AccountType::spec_try_from_u64(value) is Some <==> value <= 10,
            AccountType::spec_try_from_u64(value) is Some <==> AccountType::spec_from_u64(
                value,
            ).spec_to_u64() == value,
    {
    }

    /// The letter of an account type stands for that type, but for
    /// `P2PSuperSeeder`, which has no letter. A letter is the letter of the
    /// type it stands for, but for `i`, `L` and `c`, which share their types
    /// with `I` and `T`.
    pub proof fn lemma_letter_round_trip(account_type: AccountType, letter: char)
        ensures
            account_type != AccountType::P2PSuperSeeder ==> AccountType::spec_from_letter(
                account_type.spec_letter(),
            ) == account_type,
            AccountType::spec_from_letter(AccountType::P2PSuperSeeder.spec_letter())
                == AccountType::Invalid,
            AccountType::spec_from_letter(letter).spec_letter() == letter <==> (letter == 'I'
                || letter == 'U' || letter == 'M' || letter == 'G' || letter == 'A' || letter
                == 'P' || letter == 'C' || letter == 'g' || letter == 'T' || letter == 'a'),
            AccountType::spec_from_letter(letter) != AccountType::P2PSuperSeeder,
    {
    }
}

impl From<char> for AccountType {
    /// The account type that a letter of the bracketed form stands for.
    fn from(value: char) -> (account_type: AccountType) {
        match value {
            'I' | 'i' => AccountType::Invalid,
            'U' => AccountType::Individual,
            'M' => AccountType::Multiseat,
            'G' => AccountType::GameServer,
            'A' => AccountType::AnonGameServer,
            'P' => AccountType::Pending,
            'C' => AccountType::ContentServer,
            'g' => AccountType::Clan,
            'T' | 'L' | 'c' => AccountType::Chat,
            'a' => AccountType::AnonUser,
            _ => AccountType::Invalid,
        }
    }
}

impl vstd::std_specs::convert::FromSpecImpl<char> for AccountType {
    open spec fn obeys_from_spec() -> bool {
        true
    }

    open spec fn from_spec(value: char) -> AccountType {
        AccountType::spec_from_letter(value)
    }
}

impl From<AccountType> for char {
    /// The letter that stands for an account type in the bracketed form.
    fn from(account_type: AccountType) -> (letter: char) {
        match account_type {
            AccountType::Invalid => 'I',
            AccountType::Individual => 'U',
            AccountType::Multiseat => 'M',
            AccountType::GameServer => 'G',
            AccountType::AnonGameServer => 'A',
            AccountType::Pending => 'P',
            AccountType::ContentServer => 'C',
            AccountType::Clan => 'g',
            AccountType::Chat => 'T',
            AccountType::P2PSuperSeeder => ' ',
            AccountType::AnonUser => 'a',
        }
    }
}

impl vstd::std_specs::convert::FromSpecImpl<AccountType> for char {
    open spec fn obeys_from_spec() -> bool {
        true
    }

    open spec fn from_spec(account_type: AccountType) -> char {
        account_type.spec_letter()
    }
}

/// The named values of an identifier's instance field. The first four count
/// up from zero; the flags are single bits high in the field. The number of
/// a variant is given by `to_u64`, not by a cast.
#[derive(Copy, Clone, PartialEq, Eq, Debug, Structural)]
pub enum AccountInstance {
    All,
    Desktop,
    Console,
    Web,
    FlagMMSLobby,
    FlagLobby,
    FlagClan,
}

impl AccountInstance {
    /// The number that stands for this instance in an identifier.
    pub open spec fn spec_to_u64(self) -> u64 {
        match self {
            AccountInstance::All => 0,
            AccountInstance::Desktop => 1,
            AccountInstance::Console => 2,
            AccountInstance::Web => 3,
            AccountInstance::FlagMMSLobby => 131072,
            AccountInstance::FlagLobby => 262144,
            AccountInstance::FlagClan => 524288,
        }
    }

    /// The instance that `value` stands for, if it stands for one.
    pub open spec fn spec_try_from_u64(value: u64) -> Option<AccountInstance> {
        if value == 0 {
            Some(AccountInstance::All)
        } else if value == 1 {
            Some(AccountInstance::Desktop)
        } else if value == 2 {
            Some(AccountInstance::Console)
        } else if value == 3 {
            Some(AccountInstance::Web)
        } else if value == 131072 {
            Some(AccountInstance::FlagMMSLobby)
        } else if value == 262144 {
            Some(AccountInstance::FlagLobby)
        } else if value == 524288 {
            Some(AccountInstance::FlagClan)
        } else {
            None
        }
    }

    /// The instance that `value` stands for; `All` where it stands for none.
    pub open spec fn spec_from_u64(value: u64) -> AccountInstance {
        match AccountInstance::spec_try_from_u64(value) {
            Some(instance) => instance,
            None => AccountInstance::All,
        }
    }

    /// The number that stands for this instance in an identifier.
    #[verifier::when_used_as_spec(spec_to_u64)]
    pub fn to_u64(self) -> (value: u64)
        ensures
            value == self.spec_to_u64(),
    {
        match self {
            AccountInstance::All => 0,
            AccountInstance::Desktop => 1,
            AccountInstance::Console => 2,
            AccountInstance::Web => 3,
            AccountInstance::FlagMMSLobby => 131072,
            AccountInstance::FlagLobby => 262144,
            AccountInstance::FlagClan => 524288,
        }
    }

    /// The instance that `value` stands for, if it stands for one.
    pub fn try_from_u64(value: u64) -> (instance: Option<AccountInstance>)
        ensures
            instance == AccountInstance::spec_try_from_u64(value),
    {
        match value {
            0 => Some(AccountInstance::All),
            1 => Some(AccountInstance::Desktop),
            2 => Some(AccountInstance::Console),
            3 => Some(AccountInstance::Web),
            131072 => Some(AccountInstance::FlagMMSLobby),
            262144 => Some(AccountInstance::FlagLobby),
            524288 => Some(AccountInstance::FlagClan),
            _ => None,
        }
    }

    /// The instance that `value` stands for; `All` where it stands for none.
    #[verifier::when_used_as_spec(spec_from_u64)]
    pub fn from_u64(value: u64) -> (instance: AccountInstance)
        ensures
            instance == AccountInstance::spec_from_u64(value),
    {
        match AccountInstance::try_from_u64(value) {
            Some(instance) => instance,
            None => AccountInstance::All,
        }
    }

    /// Every instance is read back from its own number and fits the instance
    /// field, and a number stands for an instance exactly when it is the
    /// number of the instance read from it.
    pub proof fn lemma_number_round_trip(instance: AccountInstance, value: u64)
        ensures
            AccountInstance::spec_try_from_u64(instance.spec_to_u64()) == Some(instance),
            AccountInstance::spec_from_u64(instance.spec_to_u64()) == instance,
            instance.spec_to_u64() <= 0xF_FFFF,
            AccountInstance::spec_try_from_u64(value) is Some <==> AccountInstance::spec_from_u64(
                value,
            ).spec_to_u64() == value,
    {
    }
}

} // verus!
