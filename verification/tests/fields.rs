use soup_sdk::chat::parser::user::{get_follow, parse_user_flags, parse_user_status};
use soup_sdk::chat::parser::types::UserFlags;
use soup_sdk::chat::parser::util::{is, parse_decimal, parse_u32_or, parse_u32_or_default, text_eq};
use soup_sdk::chat::parser::util::normalize_user_id as normalize;
use soup_sdk::chat::parser::freeze::parse_freeze_targets;
use soup_sdk::chat::parser::constants::super_user_name;
use soup_sdk::chat::types::UserStatus;

#[test]
fn normalization_examples() {
    assert_eq!(normalize("alice(3)"), "alice");
    assert_eq!(normalize("alice(x)"), "alice(x)");
    assert_eq!(normalize("ab"), "ab");
    assert_eq!(normalize(""), "");
    assert_eq!(normalize("(1)"), "");
    assert_eq!(normalize("a(10)"), "a(10)");
    assert_eq!(normalize("a(1) "), "a(1) ");
    assert_eq!(normalize("a[1)"), "a[1)");
    assert_eq!(normalize("a(\u{661})"), "a(\u{661})");
    assert_eq!(normalize("한글(7)"), "한글");
    assert_eq!(normalize("한글"), "한글");
    assert_eq!(normalize("x\u{ff08}1)"), "x\u{ff08}1)");
}

#[test]
fn normalization_is_idempotent_on_single_suffixes() {
    for id in ["alice(3)", "alice", "", "(1)", "a(b)(c)", "한글(0)", "a(1)b", "((1)"] {
        let once = normalize(id);
        assert_eq!(normalize(&once), once);
    }
}

#[test]
fn normalization_strips_one_suffix_only() {
    assert_eq!(normalize("alice(1)(2)"), "alice(1)");
    assert_eq!(normalize(&normalize("alice(1)(2)")), "alice");
}

#[test]
fn bit_test_needs_every_bit() {
    assert!(is(0b1100, 0b0100));
    assert!(is(0b1100, 0b1100));
    assert!(!is(0b1000, 0b1100));
    assert!(is(5, 0));
    assert!(!is(0, 4));
}

#[test]
fn decimal_fields() {
    assert_eq!(parse_u32_or_default("48"), 48);
    assert_eq!(parse_u32_or_default("+48"), 48);
    assert_eq!(parse_u32_or_default("048"), 48);
    assert_eq!(parse_u32_or_default(""), 0);
    assert_eq!(parse_u32_or_default("4 8"), 0);
    assert_eq!(parse_u32_or_default("-1"), 0);
    assert_eq!(parse_u32_or_default("1.0"), 0);
    assert_eq!(parse_u32_or_default("٣"), 0);
    assert_eq!(parse_u32_or_default("4294967295"), u32::MAX);
    assert_eq!(parse_u32_or_default("4294967296"), 0);
    assert_eq!(parse_u32_or("", 1), 1);
    assert_eq!(parse_u32_or("x", 7), 7);
    assert_eq!(parse_u32_or("0", 7), 0);
    assert_eq!(parse_u32_or("12", 7), 12);
}

#[test]
fn decimal_with_a_bound() {
    assert_eq!(parse_decimal(b"255", 255), Some(255));
    assert_eq!(parse_decimal(b"256", 255), None);
    assert_eq!(parse_decimal(b"0", 0), Some(0));
    assert_eq!(parse_decimal(b"1", 0), None);
    assert_eq!(parse_decimal(b"18446744073709551615", u64::MAX), Some(u64::MAX));
    assert_eq!(parse_decimal(b"18446744073709551616", u64::MAX), None);
    assert_eq!(parse_decimal(b"99999999999999999999999", u64::MAX), None);
    assert_eq!(parse_decimal(b"++1", 9), None);
    assert_eq!(parse_decimal(b"+", 9), None);
    assert_eq!(parse_decimal(b"", 9), None);
    assert_eq!(parse_decimal(b"0009", 9), Some(9));
}

#[test]
fn texts_compare_by_their_characters() {
    assert!(text_eq("1", "1"));
    assert!(text_eq("", ""));
    assert!(!text_eq("1", "1 "));
    assert!(!text_eq("1", ""));
    assert!(!text_eq("é", "e"));
    assert!(text_eq("한글", "한글"));
}

#[test]
fn flags_are_two_masks() {
    assert_eq!(parse_user_flags("1|0"), Some(UserFlags { combined: 1, follow: 0 }));
    assert_eq!(parse_user_flags("65828|262144"), Some(UserFlags { combined: 65828, follow: 262144 }));
    assert_eq!(parse_user_flags("4|8|15"), Some(UserFlags { combined: 4, follow: 8 }));
    assert_eq!(parse_user_flags("|"), Some(UserFlags { combined: 0, follow: 0 }));
    assert_eq!(parse_user_flags("x|3"), Some(UserFlags { combined: 0, follow: 3 }));
    assert_eq!(parse_user_flags("3|"), Some(UserFlags { combined: 3, follow: 0 }));
    assert_eq!(parse_user_flags("3"), None);
    assert_eq!(parse_user_flags(""), None);
}

#[test]
fn follow_tiers() {
    assert_eq!(get_follow(0), 0);
    assert_eq!(get_follow(1 << 18), 1);
    assert_eq!(get_follow(1 << 19), 2);
    assert_eq!(get_follow((1 << 18) | (1 << 19)), 1);
    assert_eq!(get_follow(1 << 17), 0);
}

#[test]
fn status_bits() {
    let none = UserStatus {
        follow: 0,
        is_bj: false,
        is_manager: false,
        is_top_fan: false,
        is_fan: false,
        is_supporter: false,
    };
    assert_eq!(parse_user_status("0|0"), Some(none));
    assert_eq!(parse_user_status("1|0"), Some(none));
    assert_eq!(parse_user_status("16|0"), Some(none));
    assert_eq!(parse_user_status("4|0"), Some(UserStatus { is_bj: true, ..none }));
    assert_eq!(parse_user_status("256|0"), Some(UserStatus { is_manager: true, ..none }));
    assert_eq!(parse_user_status("32768|0"), Some(UserStatus { is_top_fan: true, ..none }));
    assert_eq!(parse_user_status("32|0"), Some(UserStatus { is_fan: true, ..none }));
    assert_eq!(parse_user_status("1048576|0"), Some(UserStatus { is_supporter: true, ..none }));
    assert_eq!(parse_user_status("0|262144"), Some(UserStatus { follow: 1, ..none }));
    assert_eq!(parse_user_status("0|524288"), Some(UserStatus { follow: 2, ..none }));
    assert_eq!(
        parse_user_status("1081636|786432"),
        Some(UserStatus {
            follow: 1,
            is_bj: true,
            is_manager: true,
            is_top_fan: true,
            is_fan: true,
            is_supporter: true,
        })
    );
    assert_eq!(parse_user_status("no flags"), None);
}

#[test]
fn freeze_targets_follow_the_bits() {
    assert_eq!(parse_freeze_targets("0"), Vec::<String>::new());
    assert_eq!(parse_freeze_targets("48"), vec!["NORMAL", "FAN"]);
    assert_eq!(parse_freeze_targets("352"), vec!["FAN", "SUPPORTER", "FOLLOWER"]);
    assert_eq!(parse_freeze_targets("16"), vec!["NORMAL"]);
    assert_eq!(parse_freeze_targets("128"), vec!["TOP_FAN"]);
    assert_eq!(parse_freeze_targets("512"), vec!["MANAGER"]);
    assert_eq!(
        parse_freeze_targets("1008"),
        vec!["NORMAL", "FAN", "SUPPORTER", "TOP_FAN", "FOLLOWER", "MANAGER"]
    );
    assert_eq!(parse_freeze_targets("15"), Vec::<String>::new());
    assert_eq!(parse_freeze_targets(""), Vec::<String>::new());
    assert_eq!(parse_freeze_targets("many"), Vec::<String>::new());
}

#[test]
fn superuser_names() {
    assert_eq!(super_user_name(0), Some("streamer"));
    assert_eq!(super_user_name(1), Some("manager"));
    assert_eq!(super_user_name(2), Some("operator"));
    assert_eq!(super_user_name(3), Some("operator"));
    assert_eq!(super_user_name(4), Some("cleaner"));
    assert_eq!(super_user_name(5), None);
    assert_eq!(super_user_name(usize::MAX), None);
}
