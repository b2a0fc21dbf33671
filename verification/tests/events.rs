use soup_sdk::chat::events::{
    ChatEvent, DonationEvent, EventMeta, FreezeEvent, GiftEvent, MuteEvent, NotificationEvent,
    SimplifiedUserEvent, SlowEvent, StickerEvent, SubscribeEvent, Timestamp, UserEvent,
};
use soup_sdk::chat::parser::balloon::{
    parse_ad_balloon_event, parse_balloon_event, parse_balloon_sub_event,
    parse_station_ad_balloon_event, parse_video_balloon_event, parse_vod_ad_balloon_event,
    parse_vod_balloon_event,
};
use soup_sdk::chat::parser::chat::{parse_chat_event, parse_manager_chat_event};
use soup_sdk::chat::parser::emoticon::parse_emoticon_event;
use soup_sdk::chat::parser::exit::parse_exit_event;
use soup_sdk::chat::parser::freeze::parse_freeze_event;
use soup_sdk::chat::parser::gift::{
    parse_ogq_gift_event, parse_quickview_gift_event, parse_subscribe_gift_event,
};
use soup_sdk::chat::parser::join::parse_join_event;
use soup_sdk::chat::parser::kick::parse_kick_cancel_event;
use soup_sdk::chat::parser::mute::parse_mute_event;
use soup_sdk::chat::parser::notification::parse_notification_event;
use soup_sdk::chat::parser::raw::RawMessage;
use soup_sdk::chat::parser::slow::parse_slow_event;
use soup_sdk::chat::parser::sticker::{parse_sticker_event, parse_sticker_sub_event};
use soup_sdk::chat::parser::subscribe::{parse_subscribe_event, parse_subscribe_renew_event};
use soup_sdk::chat::types::{
    ChatType, DonationType, Emoticon, GiftType, User, UserStatus, UserSubscribe,
};

fn at() -> Timestamp {
    Timestamp { seconds: 1_700_000_000, nanos: 250 }
}

fn meta() -> EventMeta {
    EventMeta { received_time: at() }
}

fn message(code: u32, fields: &[&str]) -> RawMessage {
    RawMessage {
        code,
        ret_code: 0,
        body: fields.iter().map(|f| f.to_string()).collect(),
        received_time: at(),
    }
}

fn plain_status() -> UserStatus {
    UserStatus {
        follow: 0,
        is_bj: false,
        is_manager: false,
        is_top_fan: false,
        is_fan: false,
        is_supporter: false,
    }
}

#[test]
fn chat_event_of_a_plain_viewer() {
    let raw = message(5, &["hi", "u1", "", "", "", "nick", "1|0", "0", "", "", "0"]);
    assert_eq!(
        parse_chat_event(raw),
        Some(ChatEvent {
            meta: meta(),
            comment: "hi".to_string(),
            chat_type: ChatType::Common,
            user: User {
                id: "u1".to_string(),
                label: "nick".to_string(),
                status: plain_status(),
                subscribe: Some(UserSubscribe { acc: 0, current: 0 }),
            },
            is_admin: false,
            emoticon: None,
        })
    );
}

#[test]
fn chat_event_reads_months_and_flags() {
    let raw = message(
        5,
        &["line one\r\nline two\r", "fan(2)", "", "", "", "Fan", "32|524288", "3", "", "", "14", "more"],
    );
    let event = parse_chat_event(raw).unwrap();
    assert_eq!(event.comment, "line one\nline two");
    assert_eq!(event.user.id, "fan");
    assert_eq!(event.user.label, "Fan");
    assert_eq!(event.user.status, UserStatus { follow: 2, is_fan: true, ..plain_status() });
    assert_eq!(event.user.subscribe, Some(UserSubscribe { acc: 14, current: 3 }));
    assert_eq!(event.chat_type, ChatType::Common);
}

#[test]
fn chat_event_needs_eleven_fields_and_flags() {
    assert_eq!(parse_chat_event(message(5, &["hi", "u1", "", "", "", "nick", "1|0", "0", "", ""])), None);
    assert_eq!(parse_chat_event(message(5, &[])), None);
    assert_eq!(
        parse_chat_event(message(5, &["hi", "u1", "", "", "", "nick", "10", "0", "", "", "0"])),
        None
    );
}

#[test]
fn manager_chat_event() {
    let raw = message(26, &["notice\r", "mod(1)", "1", "", "Mod", "256|0"]);
    assert_eq!(
        parse_manager_chat_event(raw),
        Some(ChatEvent {
            meta: meta(),
            comment: "notice".to_string(),
            chat_type: ChatType::Manager,
            user: User {
                id: "mod".to_string(),
                label: "Mod".to_string(),
                status: UserStatus { is_manager: true, ..plain_status() },
                subscribe: None,
            },
            is_admin: true,
            emoticon: None,
        })
    );
    let raw = message(26, &["notice", "mod", "true", "", "Mod", "0|0"]);
    assert!(!parse_manager_chat_event(raw).unwrap().is_admin);
    assert_eq!(parse_manager_chat_event(message(26, &["notice", "mod", "1", "", "Mod"])), None);
    assert_eq!(parse_manager_chat_event(message(26, &["notice", "mod", "1", "", "Mod", ""])), None);
}

#[test]
fn emoticon_event() {
    let fields = [
        "", "wow", "id7", "3", "v2", "user(4)", "User", "4|262144", "", "", "", "png", "2", "", "", "9",
    ];
    assert_eq!(
        parse_emoticon_event(message(109, &fields)),
        Some(ChatEvent {
            meta: meta(),
            comment: "wow".to_string(),
            chat_type: ChatType::Emoticon,
            user: User {
                id: "user".to_string(),
                label: "User".to_string(),
                status: UserStatus { follow: 1, is_bj: true, ..plain_status() },
                subscribe: Some(UserSubscribe { acc: 9, current: 2 }),
            },
            is_admin: false,
            emoticon: Some(Emoticon {
                id: "id7".to_string(),
                number: "3".to_string(),
                ext: "png".to_string(),
                version: "v2".to_string(),
            }),
        })
    );
    assert_eq!(parse_emoticon_event(message(109, &fields[..15])), None);
}

#[test]
fn exit_event_normalizes_the_user() {
    let raw = message(4, &["0", "alice(2)", "Alice", "1", "", "0|0"]);
    let (is_kick, event) = parse_exit_event(raw).unwrap();
    assert!(!is_kick);
    assert_eq!(
        event,
        UserEvent {
            meta: meta(),
            user: User {
                id: "alice".to_string(),
                label: "Alice".to_string(),
                status: plain_status(),
                subscribe: None,
            },
        }
    );
}

#[test]
fn exit_event_tells_removal_from_leaving() {
    let (is_kick, _) = parse_exit_event(message(4, &["", "a", "A", "0", "", "0|0"])).unwrap();
    assert!(is_kick);
    let (is_kick, _) = parse_exit_event(message(4, &["", "a", "A", "", "", "0|0"])).unwrap();
    assert!(is_kick);
    let (is_kick, _) = parse_exit_event(message(4, &["", "a", "A", "1", "", "0|0"])).unwrap();
    assert!(!is_kick);
}

#[test]
fn exit_event_is_gated() {
    assert_eq!(parse_exit_event(message(4, &["1", "alice", "Alice", "1", "", "0|0"])), None);
    assert_eq!(parse_exit_event(message(4, &["0", "alice", "Alice", "1", ""])), None);
    assert_eq!(parse_exit_event(message(4, &[])), None);
    assert_eq!(parse_exit_event(message(4, &["0", "alice", "Alice", "1", "", "flags"])), None);
}

#[test]
fn freeze_event_with_two_targets() {
    let raw = message(21, &["1", "", "48", "10", "3", "ignored"]);
    assert_eq!(
        parse_freeze_event(raw),
        Some(FreezeEvent {
            meta: meta(),
            freezed: true,
            limit_subscription_month: 3,
            limit_balloons: 10,
            targets: vec!["NORMAL".to_string(), "FAN".to_string()],
        })
    );
}

#[test]
fn freeze_event_with_three_targets() {
    let event = parse_freeze_event(message(21, &["1", "", "352", "10", "3"])).unwrap();
    assert_eq!(event.targets, vec!["FAN", "SUPPORTER", "FOLLOWER"]);
    assert!(event.freezed);
    assert_eq!(event.limit_balloons, 10);
    assert_eq!(event.limit_subscription_month, 3);
}

#[test]
fn freeze_event_thaws_on_zero_only() {
    assert!(!parse_freeze_event(message(21, &["0", "", "0", "", ""])).unwrap().freezed);
    assert!(parse_freeze_event(message(21, &["", "", "0", "", ""])).unwrap().freezed);
    assert!(parse_freeze_event(message(21, &["00", "", "0", "", ""])).unwrap().freezed);
    let event = parse_freeze_event(message(21, &["0", "", "x", "y", "z"])).unwrap();
    assert_eq!(event.targets, Vec::<String>::new());
    assert_eq!(event.limit_balloons, 0);
    assert_eq!(event.limit_subscription_month, 0);
    assert_eq!(parse_freeze_event(message(21, &["1", "", "48", "10"])), None);
}

#[test]
fn join_event_needs_exactly_three_fields() {
    assert_eq!(
        parse_join_event(message(127, &["bob(1)", "", ""])),
        Some(SimplifiedUserEvent { meta: meta(), user_id: "bob".to_string() })
    );
    assert_eq!(parse_join_event(message(127, &["bob(1)", ""])), None);
    assert_eq!(parse_join_event(message(127, &["bob(1)", "", "", ""])), None);
    assert_eq!(parse_join_event(message(127, &[])), None);
}

#[test]
fn kick_cancel_event_is_gated() {
    assert_eq!(
        parse_kick_cancel_event(message(76, &["1", "bob(9)"])),
        Some(SimplifiedUserEvent { meta: meta(), user_id: "bob".to_string() })
    );
    assert_eq!(parse_kick_cancel_event(message(76, &["0", "bob"])), None);
    assert_eq!(parse_kick_cancel_event(message(76, &["", "bob"])), None);
    assert_eq!(parse_kick_cancel_event(message(76, &["1"])), None);
    assert_eq!(parse_kick_cancel_event(message(76, &[])), None);
}

#[test]
fn mute_event() {
    let raw = message(8, &["loud(3)", "32|0", "30", "2", "mod(1)", "1", "", "Loud"]);
    assert_eq!(
        parse_mute_event(raw),
        Some(MuteEvent {
            meta: meta(),
            user: User {
                id: "loud".to_string(),
                label: "Loud".to_string(),
                status: UserStatus { is_fan: true, ..plain_status() },
                subscribe: None,
            },
            seconds: 30,
            message: String::new(),
            by: "mod".to_string(),
            counts: 2,
            superuser_type: "manager".to_string(),
        })
    );
}

#[test]
fn mute_event_defaults() {
    let event = parse_mute_event(message(8, &["a", "0|0", "", "", "b", "", "", "A"])).unwrap();
    assert_eq!(event.seconds, 0);
    assert_eq!(event.counts, 1);
    assert_eq!(event.superuser_type, "streamer");
    let event = parse_mute_event(message(8, &["a", "0|0", "5", "0", "b", "4", "", "A"])).unwrap();
    assert_eq!(event.counts, 0);
    assert_eq!(event.superuser_type, "cleaner");
    let event = parse_mute_event(message(8, &["a", "0|0", "5", "0", "b", "3", "", "A"])).unwrap();
    assert_eq!(event.superuser_type, "operator");
    let huge = "99999999999999999999999999";
    let event = parse_mute_event(message(8, &["a", "0|0", "5", "0", "b", huge, "", "A"])).unwrap();
    assert_eq!(event.superuser_type, "streamer");
}

#[test]
fn mute_event_fails_on_what_it_cannot_read() {
    assert_eq!(parse_mute_event(message(8, &["a", "0|0", "5", "0", "b", "5", "", "A"])), None);
    assert_eq!(parse_mute_event(message(8, &["a", "0", "5", "0", "b", "1", "", "A"])), None);
    assert_eq!(parse_mute_event(message(8, &["a", "0|0", "5", "0", "b", "1", ""])), None);
}

#[test]
fn notification_event() {
    assert_eq!(
        parse_notification_event(message(104, &["", "1", "", "welcome"])),
        Some(NotificationEvent { meta: meta(), message: "welcome".to_string(), show: true })
    );
    assert_eq!(
        parse_notification_event(message(104, &["", "0", "", "later", "x"])),
        Some(NotificationEvent { meta: meta(), message: "later".to_string(), show: false })
    );
    assert_eq!(parse_notification_event(message(104, &["", "1", ""])), None);
}

#[test]
fn slow_event_takes_the_greater() {
    assert_eq!(parse_slow_event(message(23, &["3", "10"])), Some(SlowEvent { meta: meta(), duration: 10 }));
    assert_eq!(parse_slow_event(message(23, &["30", "10"])), Some(SlowEvent { meta: meta(), duration: 30 }));
    assert_eq!(parse_slow_event(message(23, &["", "x"])), Some(SlowEvent { meta: meta(), duration: 0 }));
    assert_eq!(parse_slow_event(message(23, &["7", "7", "9"])), Some(SlowEvent { meta: meta(), duration: 7 }));
    assert_eq!(parse_slow_event(message(23, &["7"])), None);
}

#[test]
fn subscribe_events() {
    let fields = ["", "first", "sub(1)", "Sub", "", "", "", "2"];
    assert_eq!(
        parse_subscribe_event(message(91, &fields)),
        Some(SubscribeEvent {
            meta: meta(),
            user_id: "sub".to_string(),
            label: "Sub".to_string(),
            tier: 2,
            renew: 0,
        })
    );
    let fields = ["", "again(1)", "Again", "6", "", "", "", "1"];
    assert_eq!(
        parse_subscribe_renew_event(message(93, &fields)),
        Some(SubscribeEvent {
            meta: meta(),
            user_id: "again".to_string(),
            label: "Again".to_string(),
            tier: 1,
            renew: 6,
        })
    );
    let fields = ["", "again", "Again", "", "", "", "", ""];
    let event = parse_subscribe_renew_event(message(93, &fields)).unwrap();
    assert_eq!(event.renew, 1);
    assert_eq!(event.tier, 0);
    assert_eq!(parse_subscribe_event(message(91, &fields[..7])), None);
    assert_eq!(parse_subscribe_renew_event(message(93, &fields[..7])), None);
}

fn donation(kind: DonationType, from: &str, label: &str, amount: u32, ordinal: u32, top: bool) -> DonationEvent {
    DonationEvent {
        meta: meta(),
        from: from.to_string(),
        from_label: label.to_string(),
        amount,
        fan_club_ordinal: ordinal,
        become_top_fan: top,
        donation_type: kind,
    }
}

#[test]
fn balloon_events() {
    let fields = ["", "giver(1)", "Giver", "100", "7", "", "", "", "1"];
    assert_eq!(
        parse_balloon_event(message(18, &fields)),
        Some(donation(DonationType::Balloon, "giver", "Giver", 100, 7, true))
    );
    assert_eq!(parse_balloon_event(message(18, &fields[..8])), None);
    let fields = ["", "", "", "giver(1)", "Giver", "100", "7", "", "", "0"];
    assert_eq!(
        parse_balloon_sub_event(message(33, &fields)),
        Some(donation(DonationType::Balloon, "giver", "Giver", 100, 7, false))
    );
    assert_eq!(parse_balloon_sub_event(message(33, &fields[..9])), None);
}

#[test]
fn plain_donation_events() {
    let fields = ["", "giver(1)", "Giver", "55", "9", "", "", "", "1"];
    assert_eq!(
        parse_vod_balloon_event(message(86, &fields)),
        Some(donation(DonationType::Balloon, "giver", "Giver", 55, 0, false))
    );
    assert_eq!(
        parse_vod_ad_balloon_event(message(103, &fields[..4])),
        Some(donation(DonationType::ADBalloon, "giver", "Giver", 55, 0, false))
    );
    assert_eq!(
        parse_station_ad_balloon_event(message(107, &fields)),
        Some(donation(DonationType::ADBalloon, "giver", "Giver", 55, 0, false))
    );
    assert_eq!(parse_vod_balloon_event(message(86, &fields[..3])), None);
    assert_eq!(parse_vod_ad_balloon_event(message(103, &fields[..3])), None);
    assert_eq!(parse_station_ad_balloon_event(message(107, &[])), None);
}

#[test]
fn ad_and_video_balloon_events() {
    let fields = ["", "", "giver(1)", "Giver", "", "", "", "", "", "12", "3", "", "1"];
    assert_eq!(
        parse_ad_balloon_event(message(87, &fields)),
        Some(donation(DonationType::ADBalloon, "giver", "Giver", 12, 3, true))
    );
    assert_eq!(parse_ad_balloon_event(message(87, &fields[..12])), None);
    let fields = ["", "", "giver", "Giver", "8", "x", "", "yes"];
    assert_eq!(
        parse_video_balloon_event(message(105, &fields)),
        Some(donation(DonationType::VODBalloon, "giver", "Giver", 8, 0, false))
    );
    assert_eq!(parse_video_balloon_event(message(105, &fields[..7])), None);
}

#[test]
fn gift_events() {
    let fields = ["", "giver(1)", "Giver", "taker(2)", "Taker", "code5", "", "code7"];
    let gift = |kind: GiftType, code: &str| GiftEvent {
        meta: meta(),
        gift_type: kind,
        sender_id: "giver".to_string(),
        sender_label: "Giver".to_string(),
        receiver_id: "taker".to_string(),
        receiver_label: "Taker".to_string(),
        gift_code: code.to_string(),
    };
    assert_eq!(
        parse_subscribe_gift_event(message(0, &fields)),
        Some(gift(GiftType::Subscription, "code7"))
    );
    assert_eq!(parse_quickview_gift_event(message(0, &fields)), Some(gift(GiftType::QuickView, "code5")));
    assert_eq!(parse_ogq_gift_event(message(0, &fields)), Some(gift(GiftType::OGQ, "code5")));
    assert_eq!(parse_subscribe_gift_event(message(0, &fields[..7])), None);
    assert_eq!(parse_quickview_gift_event(message(0, &fields[..6])), Some(gift(GiftType::QuickView, "code5")));
    assert_eq!(parse_quickview_gift_event(message(0, &fields[..5])), None);
    assert_eq!(parse_ogq_gift_event(message(0, &[])), None);
}

#[test]
fn sticker_events() {
    let fields = ["", "", "fan(1)", "Fan", "sub", "", "", "30", "2", "9"];
    assert_eq!(
        parse_sticker_event(message(0, &fields)),
        Some(StickerEvent {
            meta: meta(),
            from: "fan".to_string(),
            from_label: "Fan".to_string(),
            amount: 30,
            supporter_ordinal: 2,
        })
    );
    assert_eq!(
        parse_sticker_sub_event(message(0, &fields)),
        Some(StickerEvent {
            meta: meta(),
            from: "Fan".to_string(),
            from_label: "sub".to_string(),
            amount: 2,
            supporter_ordinal: 9,
        })
    );
    assert_eq!(parse_sticker_event(message(0, &fields[..8])), None);
    assert_eq!(parse_sticker_sub_event(message(0, &fields[..9])), None);
}
