use steam_rs::steam_id::{
    de_steamid_from_str, de_steamid_from_str_opt, AccountInstance, AccountType, ParseSteamIdError,
    SteamId, SteamIdError, Universe,
};

fn too_big(what: &str, limit: u64) -> SteamIdError {
    SteamIdError::TooBig(what.to_owned(), limit)
}

#[test]
fn number_round_trip() {
    for v in [0u64, 1, 76561197960287930, 0x0123_4567_89AB_CDEF, u64::MAX] {
        assert_eq!(v, SteamId::new(v).into_u64());
        assert_eq!(SteamId(v), SteamId::from(v));
    }
}

#[test]
fn fields_of_a_known_identifier() {
    let id = SteamId::new(76561198282694357);
    assert_eq!(322428629, id.get_account_id());
    assert_eq!(1, id.get_account_instance());
    assert_eq!(AccountType::Individual, id.get_account_type());
    assert_eq!(Universe::Public, id.get_universe());
}

#[test]
fn fields_at_the_edges_of_the_layout() {
    let id = SteamId::new(u64::MAX);
    assert_eq!(0xFFFF_FFFF, id.get_account_id());
    assert_eq!(0xF_FFFF, id.get_account_instance());
    assert_eq!(AccountType::Invalid, id.get_account_type());
    assert_eq!(Universe::Invalid, id.get_universe());

    let id = SteamId::new(0x0400_0000_0000_0000);
    assert_eq!(Universe::Dev, id.get_universe());
    assert_eq!(0, id.get_account_id());
    let id = SteamId::new(0x00A0_0000_0000_0000);
    assert_eq!(AccountType::AnonUser, id.get_account_type());
    let id = SteamId::new(0x0008_0000_0000_0000);
    assert_eq!(524288, id.get_account_instance());
    assert_eq!(AccountType::Invalid, id.get_account_type());
}

#[test]
fn setting_one_field_keeps_the_others() {
    let start = SteamId::new(0x0123_4567_89AB_CDEF);

    let mut id = start;
    id.set_account_id(0x1122_3344).unwrap();
    assert_eq!(0x0123_4567_1122_3344, id.0);

    let mut id = start;
    id.set_account_instance(0xABCDE).unwrap();
    assert_eq!(0x012A_BCDE_89AB_CDEF, id.0);

    let mut id = start;
    id.set_account_type(0xF).unwrap();
    assert_eq!(0x01F3_4567_89AB_CDEF, id.0);

    let mut id = start;
    id.set_account_universe(0xFE).unwrap();
    assert_eq!(0xFE23_4567_89AB_CDEF, id.0);
}

#[test]
fn setting_a_field_to_zero_clears_it() {
    let mut id = SteamId::new(u64::MAX);
    id.set_account_id(0).unwrap();
    assert_eq!(0xFFFF_FFFF_0000_0000, id.0);
    id.set_account_instance(0).unwrap();
    assert_eq!(0xFFF0_0000_0000_0000, id.0);
    id.set_account_type(0).unwrap();
    assert_eq!(0xFF00_0000_0000_0000, id.0);
    id.set_account_universe(0).unwrap();
    assert_eq!(0, id.0);
}

#[test]
fn setters_accept_the_largest_values() {
    let mut id = SteamId::new(0);
    assert_eq!(Ok(()), id.set_account_id(0xFFFF_FFFF));
    assert_eq!(Ok(()), id.set_account_instance(0xF_FFFF));
    assert_eq!(Ok(()), id.set_account_type(0xF));
    assert_eq!(Ok(()), id.set_account_universe(0xFF));
    assert_eq!(u64::MAX, id.0);
}

#[test]
fn setters_refuse_what_does_not_fit() {
    let start = SteamId::new(0x0123_4567_89AB_CDEF);
    let mut id = start;
    assert_eq!(Err(too_big("Account ID", 0xFFFF_FFFF)), id.set_account_id(0x1_0000_0000));
    assert_eq!(start, id);
    assert_eq!(Err(too_big("Account instance", 0xF_FFFF)), id.set_account_instance(0x10_0000));
    assert_eq!(start, id);
    assert_eq!(Err(too_big("Account type", 0xF)), id.set_account_type(0x10));
    assert_eq!(start, id);
    assert_eq!(Err(too_big("Account universe", 0xFF)), id.set_account_universe(0x100));
    assert_eq!(start, id);
    assert_eq!(Err(too_big("Account ID", 0xFFFF_FFFF)), id.set_account_id(u64::MAX));
    assert_eq!(start, id);
}

#[test]
fn legacy_form_round_trip() {
    let id = SteamId::new_smart("STEAM_1:0:11101").unwrap();
    assert_eq!(76561197960287930, id.0);
    assert_eq!("STEAM_1:0:11101", id.to_id2_string());
    for text in ["STEAM_1:1:0", "STEAM_4:0:2147483647", "STEAM_2:1:2147483647", "STEAM_3:0:7"] {
        assert_eq!(text, SteamId::new_smart(text).unwrap().to_id2_string());
    }
}

#[test]
fn legacy_form_fixes_type_and_instance() {
    let id = SteamId::new_smart("STEAM_3:1:5").unwrap();
    assert_eq!(Universe::Internal, id.get_universe());
    assert_eq!(AccountType::Individual, id.get_account_type());
    assert_eq!(AccountInstance::Desktop.to_u64(), id.get_account_instance() as u64);
    assert_eq!(11, id.get_account_id());
    assert_eq!((3 << 56) | (1 << 52) | (1 << 32) | 11, id.0);
}

#[test]
fn legacy_form_reads_universe_zero_as_public() {
    let id = SteamId::new_smart("STEAM_0:1:161214314").unwrap();
    assert_eq!(Universe::Public, id.get_universe());
    assert_eq!(76561198282694357, id.0);
    assert_eq!("STEAM_1:1:161214314", id.to_id2_string());
}

#[test]
fn legacy_form_ignores_type_and_instance_when_written() {
    let id = SteamId::new_smart("[g:1:103582791]").unwrap();
    assert_eq!("STEAM_1:1:51791395", id.to_id2_string());
    assert_eq!("STEAM_0:1:2147483647", SteamId::new(u64::MAX).to_id2_string());
    assert_eq!("STEAM_0:0:0", SteamId::new(0).to_id2_string());
}

#[test]
fn bracketed_form_round_trip() {
    let id = SteamId::new_smart("[U:1:322428629]").unwrap();
    assert_eq!(76561198282694357, id.0);
    assert_eq!("[U:1:322428629]", id.to_id3_string());
    for text in [
        "[I:0:0]",
        "[U:4:4294967295]",
        "[M:1:5:2]",
        "[G:2:77]",
        "[A:1:5:131072]",
        "[A:3:5:0]",
        "[P:1:1]",
        "[C:1:1]",
        "[g:1:103582791]",
        "[T:1:100]",
        "[c:1:100]",
        "[L:1:100]",
        "[a:1:9]",
    ] {
        assert_eq!(text, SteamId::new_smart(text).unwrap().to_id3_string());
    }
}

#[test]
fn bracketed_form_fields() {
    let id = SteamId::new_smart("[g:2:103582791]").unwrap();
    assert_eq!(AccountType::Clan, id.get_account_type());
    assert_eq!(Universe::Beta, id.get_universe());
    assert_eq!(0, id.get_account_instance());
    assert_eq!(103582791, id.get_account_id());
    assert_eq!((2 << 56) | (7 << 52) | 103582791, id.0);

    let id = SteamId::new_smart("[U:1:5]").unwrap();
    assert_eq!(1, id.get_account_instance());
    let id = SteamId::new_smart("[U:1:5:3]").unwrap();
    assert_eq!(3, id.get_account_instance());
    let id = SteamId::new_smart("[U:0:5]").unwrap();
    assert_eq!(Universe::Invalid, id.get_universe());
    assert_eq!("[U:0:5]", id.to_id3_string());
}

#[test]
fn bracketed_form_instance_without_a_name_is_all() {
    let id = SteamId::new_smart("[M:1:5:7]").unwrap();
    assert_eq!(0, id.get_account_instance());
    assert_eq!("[M:1:5:0]", id.to_id3_string());
    let id = SteamId::new_smart("[A:1:5:99999999999999999999999999]").unwrap();
    assert_eq!(0, id.get_account_instance());
    let id = SteamId::new_smart("[A:1:5:18446744073709551616]").unwrap();
    assert_eq!(0, id.get_account_instance());
    let id = SteamId::new_smart("[A:1:5:0002]").unwrap();
    assert_eq!(2, id.get_account_instance());
    assert_eq!("[A:1:5:2]", id.to_id3_string());
    let id = SteamId::new_smart("[A:1:5]").unwrap();
    assert_eq!("[A:1:5:0]", id.to_id3_string());
}

#[test]
fn bracketed_form_chat_letters() {
    let clan = SteamId::new_smart("[c:1:100]").unwrap();
    let lobby = SteamId::new_smart("[L:1:100]").unwrap();
    assert_eq!(AccountType::Chat, clan.get_account_type());
    assert_eq!(AccountType::Chat, lobby.get_account_type());
    assert_eq!(524288, clan.get_account_instance());
    assert_eq!(262144, lobby.get_account_instance());
    assert_ne!(clan, lobby);
    assert_eq!("[c:1:100]", clan.to_id3_string());
    assert_eq!("[L:1:100]", lobby.to_id3_string());

    let both = SteamId::new((1 << 56) | (8 << 52) | ((524288 | 262144) << 32) | 100);
    assert_eq!("[c:1:100]", both.to_id3_string());
    let given = SteamId::new_smart("[c:1:100:1]").unwrap();
    assert_eq!(524288, given.get_account_instance());
    let plain = SteamId::new_smart("[T:1:100:524288]").unwrap();
    assert_eq!("[c:1:100]", plain.to_id3_string());
    let mms = SteamId::new_smart("[T:1:100:131072]").unwrap();
    assert_eq!("[T:1:100]", mms.to_id3_string());
}

#[test]
fn bracketed_form_letters_that_are_not_read_back() {
    let id = SteamId::new_smart("[i:1:5]").unwrap();
    assert_eq!(AccountType::Invalid, id.get_account_type());
    assert_eq!("[I:1:5]", id.to_id3_string());
    let seeder = SteamId::new((1 << 56) | (9 << 52) | 5);
    assert_eq!(AccountType::P2PSuperSeeder, seeder.get_account_type());
    assert_eq!("[ :1:5]", seeder.to_id3_string());
    let unknown = SteamId::new((200 << 56) | (15 << 52) | 5);
    assert_eq!("[I:0:5]", unknown.to_id3_string());
}

#[test]
fn decimal_form() {
    assert_eq!(Ok(SteamId(76561197960287930)), SteamId::new_smart("76561197960287930"));
    assert_eq!(Ok(SteamId(0)), SteamId::new_smart("0"));
    assert_eq!(Ok(SteamId(5)), SteamId::new_smart("+5"));
    assert_eq!(Ok(SteamId(7)), SteamId::new_smart("007"));
    assert_eq!(Ok(SteamId(u64::MAX)), SteamId::new_smart("18446744073709551615"));
    assert_eq!(Ok(SteamId(u64::MAX)), SteamId::new_smart("00018446744073709551615"));
    assert_eq!("76561197960287930", SteamId::new(76561197960287930).to_string());
    assert_eq!("0", SteamId::new(0).to_string());
    assert_eq!("18446744073709551615", SteamId::new(u64::MAX).to_string());
    for v in [0u64, 9, 10, 99, 100, 1234567890, u64::MAX] {
        assert_eq!(Ok(SteamId(v)), SteamId::new_smart(&SteamId::new(v).to_string()));
        assert_eq!(format!("{v}"), SteamId::new(v).to_string());
    }
}

#[test]
fn texts_in_no_form_are_invalid() {
    for text in [
        "not-an-id",
        "",
        "+",
        "-1",
        " 1",
        "1 ",
        "1.0",
        "0x10",
        "18446744073709551616",
        "99999999999999999999999999",
        "STEAM_5:0:1",
        "STEAM_1:2:1",
        "STEAM_1:0:01",
        "STEAM_1:0:",
        "STEAM_1:0:12345678901",
        "STEAM_1:0:1 ",
        " STEAM_1:0:1",
        "STEAM_1:0:1\n",
        "steam_1:0:1",
        "STEAM_10:0:1",
        "STEAM_1:0:1:1",
        "[X:1:1]",
        "[U:5:1]",
        "[U:1:01]",
        "[U:1:]",
        "[U:1:1",
        "U:1:1]",
        "[U:1:1:]",
        "[U:1:1:x]",
        "[U:1:1:1:1]",
        "[U:1:12345678901]",
        "[U:1:1]]",
        "[UU:1:1]",
        "[ :1:1]",
        "\u{ff11}\u{ff12}",
        "STEAM_1:0:1\u{e9}",
        "[U:1:\u{ff11}]",
        "12\u{ff13}",
    ] {
        assert_eq!(Err(SteamIdError::Invalid), SteamId::new_smart(text), "{text:?}");
    }
}

#[test]
fn account_numbers_above_32_bits_are_too_big() {
    let number = too_big("SteamID", 0xFFFF_FFFF);
    assert_eq!(Err(number), SteamId::new_smart("STEAM_1:0:4294967296"));
    assert_eq!(Err(too_big("SteamID", 4294967295)), SteamId::new_smart("STEAM_1:1:9999999999"));
    assert_eq!(Err(too_big("SteamID", 4294967295)), SteamId::new_smart("[U:1:4294967296]"));
    assert_eq!(Err(too_big("SteamID", 4294967295)), SteamId::new_smart("[A:1:9999999999:1]"));
    assert!(SteamId::new_smart("[U:1:4294967295]").is_ok());
}

#[test]
fn legacy_account_ids_above_32_bits_are_too_big() {
    let id = too_big("Account ID", 0xFFFF_FFFF);
    assert_eq!(Err(id), SteamId::new_smart("STEAM_1:0:2147483648"));
    assert_eq!(Err(too_big("Account ID", 4294967295)), SteamId::new_smart("STEAM_1:1:4294967295"));
    assert_eq!(0xFFFF_FFFF, SteamId::new_smart("STEAM_1:1:2147483647").unwrap().get_account_id());
}

#[test]
fn error_messages() {
    assert_eq!("Provided SteamID is invalid.", SteamIdError::Invalid.to_string());
    assert_eq!(
        "Account ID cannot be bigger than 4294967295.",
        too_big("Account ID", 0xFFFF_FFFF).to_string()
    );
    assert_eq!("x cannot be bigger than 0.", too_big("x", 0).to_string());
    assert_eq!("Failed to parse SteamID", ParseSteamIdError.to_string());
}

#[test]
fn wire_takes_the_decimal_form_only() {
    assert_eq!(Ok(SteamId(76561197960287930)), de_steamid_from_str("76561197960287930"));
    assert_eq!(Ok(SteamId(0)), de_steamid_from_str("0"));
    assert_eq!(Err(ParseSteamIdError), de_steamid_from_str("STEAM_1:0:11101"));
    assert_eq!(Err(ParseSteamIdError), de_steamid_from_str("[U:1:322428629]"));
    assert_eq!(Err(ParseSteamIdError), de_steamid_from_str(""));
    assert_eq!(Err(ParseSteamIdError), de_steamid_from_str("abc"));
    assert_eq!(Err(ParseSteamIdError), de_steamid_from_str("18446744073709551616"));
    assert!(SteamId::new_smart("STEAM_1:0:11101").is_ok());
    assert!(SteamId::new_smart("[U:1:322428629]").is_ok());
    assert_eq!(Ok(None), de_steamid_from_str_opt(None));
    assert_eq!(Ok(Some(SteamId(12))), de_steamid_from_str_opt(Some("12")));
    assert_eq!(Err(ParseSteamIdError), de_steamid_from_str_opt(Some("[U:1:1]")));
}

#[test]
fn universe_numbers() {
    let all = [
        (Universe::Invalid, 0u64),
        (Universe::Public, 1),
        (Universe::Beta, 2),
        (Universe::Internal, 3),
        (Universe::Dev, 4),
    ];
    for (universe, number) in all {
        assert_eq!(number, universe.to_u64());
        assert_eq!(number, universe as u64);
        assert_eq!(Some(universe), Universe::try_from_u64(number));
        assert_eq!(universe, Universe::from_u64(number));
    }
    assert_eq!(None, Universe::try_from_u64(5));
    assert_eq!(Universe::Invalid, Universe::from_u64(5));
    assert_eq!(Universe::Invalid, Universe::from_u64(u64::MAX));
}

#[test]
fn account_type_numbers_and_letters() {
    let all = [
        (AccountType::Invalid, 0u64, 'I'),
        (AccountType::Individual, 1, 'U'),
        (AccountType::Multiseat, 2, 'M'),
        (AccountType::GameServer, 3, 'G'),
        (AccountType::AnonGameServer, 4, 'A'),
        (AccountType::Pending, 5, 'P'),
        (AccountType::ContentServer, 6, 'C'),
        (AccountType::Clan, 7, 'g'),
        (AccountType::Chat, 8, 'T'),
        (AccountType::P2PSuperSeeder, 9, ' '),
        (AccountType::AnonUser, 10, 'a'),
    ];
    for (account_type, number, letter) in all {
        assert_eq!(number, account_type.to_u64());
        assert_eq!(number, account_type as u64);
        assert_eq!(Some(account_type), AccountType::try_from_u64(number));
        assert_eq!(account_type, AccountType::from_u64(number));
        assert_eq!(letter, char::from(account_type));
        if account_type != AccountType::P2PSuperSeeder {
            assert_eq!(account_type, AccountType::from(letter));
        }
    }
    assert_eq!(AccountType::Invalid, AccountType::from(' '));
    assert_eq!(AccountType::Invalid, AccountType::from('i'));
    assert_eq!(AccountType::Chat, AccountType::from('L'));
    assert_eq!(AccountType::Chat, AccountType::from('c'));
    assert_eq!(AccountType::Invalid, AccountType::from('x'));
    assert_eq!(None, AccountType::try_from_u64(11));
    assert_eq!(AccountType::Invalid, AccountType::from_u64(15));
}

#[test]
fn account_instance_numbers() {
    let all = [
        (AccountInstance::All, 0u64),
        (AccountInstance::Desktop, 1),
        (AccountInstance::Console, 2),
        (AccountInstance::Web, 3),
        (AccountInstance::FlagMMSLobby, 131072),
        (AccountInstance::FlagLobby, 262144),
        (AccountInstance::FlagClan, 524288),
    ];
    for (instance, number) in all {
        assert_eq!(number, instance.to_u64());
        assert_eq!(Some(instance), AccountInstance::try_from_u64(number));
        assert_eq!(instance, AccountInstance::from_u64(number));
    }
    assert_eq!(None, AccountInstance::try_from_u64(4));
    assert_eq!(AccountInstance::All, AccountInstance::from_u64(4));
    assert_eq!(None, AccountInstance::try_from_u64(131073));
}

#[test]
fn identifiers_are_read_back_from_the_legacy_form() {
    for universe in 1u64..=4 {
        for account_id in [0u64, 1, 2, 12345, 322428629, 0xFFFF_FFFE, 0xFFFF_FFFF] {
            let id = SteamId::new((universe << 56) | (1 << 52) | (1 << 32) | account_id);
            assert_eq!(Ok(id), SteamId::new_smart(&id.to_id2_string()));
        }
    }
}

#[test]
fn identifiers_are_read_back_from_the_bracketed_form() {
    let shapes = [
        (0u64, 0u64),
        (1, 1),
        (2, 0),
        (2, 1),
        (2, 3),
        (2, 524288),
        (3, 0),
        (4, 2),
        (4, 131072),
        (4, 262144),
        (5, 0),
        (6, 0),
        (7, 0),
        (8, 0),
        (8, 262144),
        (8, 524288),
        (10, 0),
    ];
    for universe in 0u64..=4 {
        for (account_type, instance) in shapes {
            for account_id in [0u64, 9, 10, 322428629, 0xFFFF_FFFF] {
                let id = SteamId::new(
                    (universe << 56) | (account_type << 52) | (instance << 32) | account_id,
                );
                assert_eq!(Ok(id), SteamId::new_smart(&id.to_id3_string()), "{id:?}");
            }
        }
    }
}
