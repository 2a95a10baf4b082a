use medkit::auxiliary::product_barcode::{
    day_prefix, epoch_day, ProductBarcode, ProductBarcodeGenerator, ProductBarcodeGeneratorState,
    INDEX_WIDTH,
};
use medkit::auxiliary::responses::GenericError;
use medkit::auxiliary::uuid_param::UuidWrapper;
use medkit::models::products::StageEnum;
use medkit::models::profiles::{
    default_i32, default_naive_date_time, deserialize_i64_to_naive_date_time,
};
use medkit::models::users::RoleEnum;
use medkit::product_id::ProductId;
use medkit::text::{
    char_is_ascii_alphanumeric, hex_upper_text, same_text, starts_with, unsigned_decimal_text,
    zero_padded_text,
};

// 2023-11-14 22:13:20 UTC
const NOW: i64 = 1_700_000_000;
const DAY: i64 = 86_400;

#[test]
fn first_barcode_of_a_day() {
    let mut generator = ProductBarcodeGenerator::new(NOW);
    assert_eq!(generator.get(NOW), Some("23111400000000".to_string()));
    assert_eq!(generator, ProductBarcodeGenerator { last_datetime: NOW, next_index: 1 });
}

#[test]
fn same_day_barcodes_increase() {
    let mut generator = ProductBarcodeGenerator::new(NOW);
    let first = generator.get(NOW).expect("a barcode");
    let second = generator.get(NOW + 1).expect("a barcode");
    let third = generator.get(NOW + 60).expect("a barcode");
    assert_eq!(first, "23111400000000");
    assert_eq!(second, "23111400000001");
    assert_eq!(third, "23111400000002");
    assert_eq!(&first[..6], &second[..6]);
    assert!(first[6..] < second[6..]);
    assert!(second[6..] < third[6..]);
    // An earlier second of the same day continues the sequence too.
    assert_eq!(generator.get(NOW - 3600), Some("23111400000003".to_string()));
    assert_eq!(generator.last_datetime, NOW);
}

#[test]
fn new_day_resets_the_suffix() {
    let mut generator = ProductBarcodeGenerator { last_datetime: NOW, next_index: 4711 };
    assert_eq!(generator.get(NOW), Some("23111400004711".to_string()));
    assert_eq!(generator.get(NOW + DAY), Some("23111500000000".to_string()));
    assert_eq!(generator, ProductBarcodeGenerator { last_datetime: NOW + DAY, next_index: 1 });
    assert_eq!(generator.get(NOW + DAY + 5), Some("23111500000001".to_string()));
}

#[test]
fn same_day_of_another_month_resets_too() {
    // 2023-12-14, the same day of the month as NOW
    let later = NOW + 30 * DAY;
    let mut generator = ProductBarcodeGenerator { last_datetime: NOW, next_index: 9 };
    assert_eq!(generator.get(later), Some("23121400000000".to_string()));
}

#[test]
fn day_changes_at_midnight() {
    let midnight = 1_700_006_400; // 2023-11-15 00:00:00 UTC
    let mut generator = ProductBarcodeGenerator::new(midnight - 1);
    assert_eq!(generator.get(midnight - 1), Some("23111400000000".to_string()));
    assert_eq!(generator.get(midnight), Some("23111500000000".to_string()));
    assert_eq!(generator.get(midnight - 1), Some("23111400000000".to_string()));
}

#[test]
fn barcodes_have_fourteen_digits() {
    let mut generator = ProductBarcodeGenerator::new(NOW);
    for now in [NOW, NOW + 1, NOW + DAY, NOW + 400 * DAY, 0, -DAY, 4_102_444_800] {
        let code = generator.get(now).expect("a barcode");
        assert_eq!(code.len(), 14);
        assert!(code.chars().all(|c| c.is_ascii_digit()));
        assert_eq!(Some(code[..6].to_string()), day_prefix(epoch_day(now)));
    }
    let mut last = ProductBarcodeGenerator { last_datetime: NOW, next_index: 99_999_999 };
    assert_eq!(last.get(NOW).map(|code| code.len()), Some(14));
    assert_eq!(last.get(NOW).map(|code| code.len()), Some(15));
}

#[test]
fn long_suffix_is_written_in_full() {
    let mut generator = ProductBarcodeGenerator { last_datetime: NOW, next_index: 99_999_999 };
    assert_eq!(generator.get(NOW), Some("23111499999999".to_string()));
    assert_eq!(generator.get(NOW), Some("231114100000000".to_string()));
    assert_eq!(INDEX_WIDTH, 8);
}

#[test]
fn used_up_sequence_hands_out_nothing() {
    let mut generator = ProductBarcodeGenerator { last_datetime: NOW, next_index: u32::MAX };
    assert_eq!(generator.get(NOW), None);
    assert_eq!(generator, ProductBarcodeGenerator { last_datetime: NOW, next_index: u32::MAX });
    assert_eq!(generator.get(NOW + DAY), Some("23111500000000".to_string()));
    let mut last = ProductBarcodeGenerator { last_datetime: NOW, next_index: u32::MAX - 1 };
    assert_eq!(last.get(NOW), Some("2311144294967294".to_string()));
    assert_eq!(last.next_index, u32::MAX);
}

#[test]
fn unwritable_day_hands_out_nothing() {
    let mut generator = ProductBarcodeGenerator::new(0);
    assert_eq!(generator.get(i64::MAX), None);
    assert_eq!(generator.get(i64::MIN), None);
    assert_eq!(generator, ProductBarcodeGenerator { last_datetime: 0, next_index: 0 });
}

#[test]
fn epoch_days_round_down() {
    assert_eq!(epoch_day(0), 0);
    assert_eq!(epoch_day(86_399), 0);
    assert_eq!(epoch_day(86_400), 1);
    assert_eq!(epoch_day(-1), -1);
    assert_eq!(epoch_day(-86_400), -1);
    assert_eq!(epoch_day(-86_401), -2);
    assert_eq!(epoch_day(NOW), 19_675);
    assert_eq!(epoch_day(i64::MAX), 106_751_991_167_300);
    assert_eq!(epoch_day(i64::MIN), -106_751_991_167_301);
}

#[test]
fn day_prefixes() {
    assert_eq!(day_prefix(0), Some("700101".to_string()));
    assert_eq!(day_prefix(19_675), Some("231114".to_string()));
    assert_eq!(day_prefix(-1), Some("691231".to_string()));
    assert_eq!(day_prefix(11_016), Some("000229".to_string()));
    assert_eq!(day_prefix(2_147_483_648), None);
    assert_eq!(day_prefix(-2_147_483_649), None);
    assert_eq!(day_prefix(2_147_483_647), None);
}

#[test]
fn state_wraps_the_generator() {
    let mut state = ProductBarcodeGeneratorState::new(NOW);
    assert_eq!(state.state, ProductBarcodeGenerator { last_datetime: NOW, next_index: 0 });
    assert_eq!(state.get(NOW), Some("23111400000000".to_string()));
    assert_eq!(state.save(), ProductBarcodeGenerator { last_datetime: NOW, next_index: 1 });
    let reloaded = ProductBarcodeGeneratorState::load(Some(state.save()), NOW + 99);
    assert_eq!(reloaded, state);
    let fresh = ProductBarcodeGeneratorState::load(None, NOW + 99);
    assert_eq!(fresh.state, ProductBarcodeGenerator { last_datetime: NOW + 99, next_index: 0 });
}

#[test]
fn checkpoints_with_a_negative_number_are_corrupt() {
    assert_eq!(
        ProductBarcodeGenerator::from_checkpoint(NOW, 12),
        Some(ProductBarcodeGenerator { last_datetime: NOW, next_index: 12 })
    );
    assert_eq!(
        ProductBarcodeGenerator::from_checkpoint(NOW, 0),
        Some(ProductBarcodeGenerator { last_datetime: NOW, next_index: 0 })
    );
    assert_eq!(ProductBarcodeGenerator::from_checkpoint(NOW, -1), None);
    assert_eq!(ProductBarcodeGenerator::from_checkpoint(NOW, i32::MIN), None);
    let corrupt = ProductBarcodeGenerator::from_checkpoint(NOW, -5);
    let mut state = ProductBarcodeGeneratorState::load(corrupt, NOW + DAY);
    assert_eq!(state.get(NOW + DAY), Some("23111500000000".to_string()));
    assert_eq!(ProductBarcodeGenerator { last_datetime: 0, next_index: 7 }.checkpoint_index(), 7);
    assert_eq!(
        ProductBarcodeGenerator { last_datetime: 0, next_index: u32::MAX }.checkpoint_index(),
        i32::MAX
    );
}

#[test]
fn reloaded_state_continues_or_resets() {
    let checkpoint = ProductBarcodeGenerator { last_datetime: NOW, next_index: 12 };
    let mut same_day = ProductBarcodeGeneratorState::load(Some(checkpoint), NOW + 10);
    assert_eq!(same_day.get(NOW + 10), Some("23111400000012".to_string()));
    let mut next_day = ProductBarcodeGeneratorState::load(Some(checkpoint), NOW + DAY);
    assert_eq!(next_day.get(NOW + DAY), Some("23111500000000".to_string()));
}

#[test]
fn barcode_param_takes_numeric_text() {
    assert_eq!(ProductBarcode::from_param("23111400000000").map(|b| b.inner()), Ok("23111400000000"));
    assert_eq!(ProductBarcode::from_param("").map(|b| b.inner()), Ok(""));
    assert_eq!(ProductBarcode::from_param("١٢٣").map(|b| b.inner()), Ok("١٢٣"));
    assert_eq!(ProductBarcode::from_param("12a4").map(|b| b.inner()), Err("12a4"));
    assert_eq!(ProductBarcode::from_param("12 4").map(|b| b.inner()), Err("12 4"));
    assert_eq!(ProductBarcode::from_param("-1").map(|b| b.inner()), Err("-1"));
    assert_eq!(ProductBarcode::from_param("1234x").map(|b| b.inner()), Err("1234x"));
}

#[test]
fn generated_barcodes_are_taken_as_params() {
    let mut generator = ProductBarcodeGenerator::new(NOW);
    for _ in 0..5 {
        let code = generator.get(NOW).expect("a barcode");
        assert!(ProductBarcode::from_param(&code).is_ok());
    }
}

#[test]
fn product_id_takes_letters_and_digits() {
    assert_eq!(ProductId::from_param("abcXYZ019").map(|p| p.inner()), Ok("abcXYZ019"));
    assert_eq!(ProductId::from_param("").map(|p| p.inner()), Ok(""));
    assert_eq!(ProductId::from_param("abc-1").map(|p| p.inner()), Err("abc-1"));
    assert_eq!(ProductId::from_param("abc_1").map(|p| p.inner()), Err("abc_1"));
    assert_eq!(ProductId::from_param("abé").map(|p| p.inner()), Err("abé"));
    assert_eq!(ProductId::from_param("١٢٣").map(|p| p.inner()), Err("١٢٣"));
    assert_eq!(ProductId::from_param("a b").map(|p| p.inner()), Err("a b"));
}

#[test]
fn ascii_alphanumerics() {
    for c in ['0', '9', 'a', 'z', 'A', 'Z', 'm', '5'] {
        assert!(char_is_ascii_alphanumeric(c));
    }
    for c in ['/', ':', '@', '[', '`', '{', ' ', 'é', '٣'] {
        assert!(!char_is_ascii_alphanumeric(c));
    }
}

#[test]
fn uuid_param_round_trips() {
    let id = UuidWrapper::from_param("550e8400-e29b-41d4-a716-446655440000").expect("a uuid");
    assert_eq!(id.into(), 0x550e8400_e29b_41d4_a716_446655440000_u128);
    assert_eq!(id.to_text(), "550e8400-e29b-41d4-a716-446655440000");
    let simple = UuidWrapper::from_param("550E8400E29B41D4A716446655440000").expect("a uuid");
    assert_eq!(simple, id);
    assert!(UuidWrapper::from_param("550e8400").is_err());
    assert!(UuidWrapper::from_param("").is_err());
    assert!(UuidWrapper::from_param("zzze8400-e29b-41d4-a716-446655440000").is_err());
    assert_eq!(UuidWrapper(0).to_text(), "00000000-0000-0000-0000-000000000000");
}

#[test]
fn generated_uuids_differ() {
    let a = UuidWrapper::generate();
    let b = UuidWrapper::generate();
    assert_ne!(a, b);
    assert_eq!(UuidWrapper::from_param(&a.to_text()).ok(), Some(a));
}

#[test]
fn generated_uuids_have_the_random_form() {
    for _ in 0..20 {
        let id = UuidWrapper::generate();
        assert_eq!((id.0 >> 76) & 0xf, 4);
        assert_eq!((id.0 >> 62) & 0x3, 2);
        let text = id.to_text();
        assert_eq!(text.len(), 36);
        assert_eq!(&text[14..15], "4");
        assert!(["8", "9", "a", "b"].contains(&&text[19..20]));
    }
}

#[test]
fn roles_are_read_from_params() {
    assert_eq!(RoleEnum::from_param("admin"), Ok(RoleEnum::Admin));
    assert_eq!(RoleEnum::from_param("ADMIN"), Ok(RoleEnum::Admin));
    assert_eq!(RoleEnum::from_param("Staff"), Ok(RoleEnum::Staff));
    assert_eq!(RoleEnum::from_param("uSeR"), Ok(RoleEnum::User));
    assert_eq!(RoleEnum::from_param("root"), Err(GenericError::InvalidInputError));
    assert_eq!(RoleEnum::from_param(""), Err(GenericError::InvalidInputError));
    assert_eq!(RoleEnum::from_param("admin "), Err(GenericError::InvalidInputError));
    assert_eq!(RoleEnum::from_lowercase("admin"), Ok(RoleEnum::Admin));
    assert_eq!(RoleEnum::from_lowercase("Admin"), Err(GenericError::InvalidInputError));
}

#[test]
fn roles_have_names() {
    for role in [RoleEnum::User, RoleEnum::Staff, RoleEnum::Admin] {
        assert_eq!(RoleEnum::from_name(&role.name()), Some(role));
    }
    assert_eq!(RoleEnum::User.name(), "User");
    assert_eq!(RoleEnum::Staff.name(), "Staff");
    assert_eq!(RoleEnum::Admin.name(), "Admin");
    assert_eq!(RoleEnum::from_name("admin"), None);
    assert_eq!(RoleEnum::from_name(""), None);
}

#[test]
fn roles_are_ordered() {
    assert!(RoleEnum::User.at_least(RoleEnum::User));
    assert!(!RoleEnum::User.at_least(RoleEnum::Staff));
    assert!(!RoleEnum::User.at_least(RoleEnum::Admin));
    assert!(RoleEnum::Staff.at_least(RoleEnum::User));
    assert!(RoleEnum::Staff.at_least(RoleEnum::Staff));
    assert!(!RoleEnum::Staff.at_least(RoleEnum::Admin));
    assert!(RoleEnum::Admin.at_least(RoleEnum::User));
    assert!(RoleEnum::Admin.at_least(RoleEnum::Staff));
    assert!(RoleEnum::Admin.at_least(RoleEnum::Admin));
}

#[test]
fn stages_are_read_from_params() {
    assert_eq!(StageEnum::from_param("initialized"), Ok(StageEnum::Initialized));
    assert_eq!(StageEnum::from_param("Submitted"), Ok(StageEnum::Submitted));
    assert_eq!(StageEnum::from_param("SAMPLED"), Ok(StageEnum::Sampled));
    assert_eq!(StageEnum::from_param("finisheD"), Ok(StageEnum::Finished));
    assert_eq!(StageEnum::from_param("done"), Err(GenericError::InvalidInputError));
    assert_eq!(StageEnum::from_param(""), Err(GenericError::InvalidInputError));
    assert_eq!(StageEnum::from_lowercase("Sampled"), Err(GenericError::InvalidInputError));
}

#[test]
fn numbers_are_written_in_decimal() {
    assert_eq!(unsigned_decimal_text(0), "0");
    assert_eq!(unsigned_decimal_text(7), "7");
    assert_eq!(unsigned_decimal_text(10), "10");
    assert_eq!(unsigned_decimal_text(42), "42");
    assert_eq!(unsigned_decimal_text(1_700_604_800), "1700604800");
    assert_eq!(unsigned_decimal_text(u64::MAX), "18446744073709551615");
}

#[test]
fn numbers_are_padded_with_zeros() {
    assert_eq!(zero_padded_text(0, 8), "00000000");
    assert_eq!(zero_padded_text(5, 8), "00000005");
    assert_eq!(zero_padded_text(12345678, 8), "12345678");
    assert_eq!(zero_padded_text(123456789, 8), "123456789");
    assert_eq!(zero_padded_text(u32::MAX, 8), "4294967295");
    assert_eq!(zero_padded_text(7, 0), "7");
    assert_eq!(zero_padded_text(0, 0), "0");
    assert_eq!(zero_padded_text(0, 1), "0");
}

#[test]
fn bytes_are_written_in_hexadecimal() {
    assert_eq!(hex_upper_text(&[]), "");
    assert_eq!(hex_upper_text(&[0]), "00");
    assert_eq!(hex_upper_text(&[0xbe, 0xef, 0x00, 0x0a]), "BEEF000A");
    assert_eq!(hex_upper_text(&[0x09, 0x10, 0x9f, 0xa0, 0xff]), "09109FA0FF");
}

#[test]
fn texts_are_compared() {
    assert!(same_text("", ""));
    assert!(same_text("abc", "abc"));
    assert!(!same_text("abc", "abd"));
    assert!(!same_text("abc", "ab"));
    assert!(!same_text("ab", "abc"));
    assert!(same_text("档案", "档案"));
    assert!(starts_with("Bearer x", "Bearer "));
    assert!(starts_with("abc", ""));
    assert!(starts_with("abc", "abc"));
    assert!(!starts_with("ab", "abc"));
    assert!(!starts_with("xbc", "a"));
}

#[test]
fn profile_defaults() {
    assert_eq!(default_i32(), 0);
    assert_eq!(default_naive_date_time(), 0);
}

#[test]
fn milliseconds_become_seconds() {
    assert_eq!(deserialize_i64_to_naive_date_time(0), 0);
    assert_eq!(deserialize_i64_to_naive_date_time(999), 0);
    assert_eq!(deserialize_i64_to_naive_date_time(1000), 1);
    assert_eq!(deserialize_i64_to_naive_date_time(1_700_000_000_123), 1_700_000_000);
    assert_eq!(deserialize_i64_to_naive_date_time(-1), 0);
    assert_eq!(deserialize_i64_to_naive_date_time(-1000), -1);
    assert_eq!(deserialize_i64_to_naive_date_time(-1999), -1);
    assert_eq!(deserialize_i64_to_naive_date_time(i64::MIN), -9_223_372_036_854_775);
}
