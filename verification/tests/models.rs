use soup_sdk::chat::commands::MessageType;
use soup_sdk::error::Error;
use soup_sdk::models::{
    BroadState, ChannelInfo, ChannelInfoToCheck, LiveDetail, LiveDetailToCheck, RawLiveDetail,
    RawStation, RawVOD, RawVODDetailData, RawVODDetailFile, RawVODDetailResponse, RawVODResponse,
    RawVODUcc, Station, StationState, VODDetail, VODFile, VOD,
};
use soup_sdk::text::{decode_text, u64_to_text, write_padded};

fn raw_vod(id: u64, auth: u32) -> RawVOD {
    RawVOD {
        title_no: id,
        title_name: format!("title {}", id),
        auth_no: auth,
        ucc: RawVODUcc { thumb: format!("//img.example/{}.jpg", id), total_file_duration: id * 10 },
    }
}

#[test]
fn only_public_replays_are_listed() {
    let response = RawVODResponse {
        data: vec![raw_vod(1, 101), raw_vod(2, 107), raw_vod(3, 101), raw_vod(4, 0), raw_vod(5, 101)],
    };
    let vods = response.into_vods();
    assert_eq!(
        vods,
        vec![
            VOD {
                id: 1,
                title: "title 1".to_string(),
                thumbnail_url: "https://img.example/1.jpg".to_string(),
                duration: 10,
            },
            VOD {
                id: 3,
                title: "title 3".to_string(),
                thumbnail_url: "https://img.example/3.jpg".to_string(),
                duration: 30,
            },
            VOD {
                id: 5,
                title: "title 5".to_string(),
                thumbnail_url: "https://img.example/5.jpg".to_string(),
                duration: 50,
            },
        ]
    );
    assert_eq!(RawVODResponse { data: Vec::new() }.into_vods(), Vec::<VOD>::new());
    assert_eq!(RawVODResponse { data: vec![raw_vod(9, 100)] }.into_vods(), Vec::<VOD>::new());
}

fn detail_data() -> RawVODDetailData {
    RawVODDetailData {
        title_no: 1234567890123,
        full_title: "Full".to_string(),
        bj_id: "streamer1".to_string(),
        broad_start: "2024-01-02 03:04:05".to_string(),
        files: vec![
            RawVODDetailFile {
                idx: 7,
                file_order: 1,
                file_info_key: "key-1".to_string(),
                file_start: "2024-01-02 03:04:05".to_string(),
                chat: "https://chat.example/1".to_string(),
                duration: 3_600_000_000,
            },
            RawVODDetailFile {
                idx: 8,
                file_order: 2,
                file_info_key: "key-2".to_string(),
                file_start: "2024-01-02 04:04:05".to_string(),
                chat: "https://chat.example/2".to_string(),
                duration: 60_000_000,
            },
        ],
    }
}

#[test]
fn replay_detail() {
    let response = RawVODDetailResponse { result: 1, data: Some(detail_data()) };
    assert_eq!(
        response.into_vod_detail(),
        Ok(VODDetail {
            id: "1234567890123".to_string(),
            title: "Full".to_string(),
            channel_id: "streamer1".to_string(),
            broad_start: "2024-01-02 03:04:05".to_string(),
            files: vec![
                VODFile {
                    id: 7,
                    order: 1,
                    file_key: "key-1".to_string(),
                    file_start: "2024-01-02 03:04:05".to_string(),
                    chat: "https://chat.example/1".to_string(),
                    duration: 3_600_000_000,
                },
                VODFile {
                    id: 8,
                    order: 2,
                    file_key: "key-2".to_string(),
                    file_start: "2024-01-02 04:04:05".to_string(),
                    chat: "https://chat.example/2".to_string(),
                    duration: 60_000_000,
                },
            ],
        })
    );
}

#[test]
fn replay_detail_that_was_not_found() {
    let response = RawVODDetailResponse { result: 0, data: Some(detail_data()) };
    assert!(matches!(response.into_vod_detail(), Err(Error::ApiError(_))));
    let response = RawVODDetailResponse { result: -1, data: None };
    assert!(matches!(response.into_vod_detail(), Err(Error::ApiError(_))));
    let response = RawVODDetailResponse { result: 1, data: None };
    assert!(matches!(response.into_vod_detail(), Err(Error::ApiError(_))));
}

#[test]
fn streaming_check() {
    assert!(LiveDetailToCheck { channel: ChannelInfoToCheck { result: 1 } }.is_streaming());
    assert!(!LiveDetailToCheck { channel: ChannelInfoToCheck { result: 0 } }.is_streaming());
    assert!(!LiveDetailToCheck { channel: ChannelInfoToCheck { result: -1 } }.is_streaming());
    assert!(!LiveDetailToCheck { channel: ChannelInfoToCheck { result: 2 } }.is_streaming());
}

#[test]
fn live_detail_from_the_answer() {
    let raw = RawLiveDetail {
        channel: ChannelInfo {
            result: 1,
            ch_domain: "chat.example.com".to_string(),
            ch_pt: 8000,
            chat_no: "4242".to_string(),
            bj_nick: "Streamer".to_string(),
            title: "Title".to_string(),
            categories: vec!["a".to_string(), "b".to_string()],
        },
    };
    assert_eq!(
        raw.into_live_detail(),
        LiveDetail {
            is_live: true,
            ch_domain: "chat.example.com".to_string(),
            ch_pt: 8000,
            ch_no: "4242".to_string(),
            streamer_nick: "Streamer".to_string(),
            title: "Title".to_string(),
            categories: vec!["a".to_string(), "b".to_string()],
        }
    );
}

#[test]
fn station_from_the_answer() {
    let raw = RawStation {
        station: StationState { broad_start: "2024-01-02 03:04:05".to_string() },
        broad: BroadState { is_password: true, viewer_count: 321, title: "Now".to_string() },
    };
    assert_eq!(
        raw.into_station(),
        Station {
            broad_start: "2024-01-02 03:04:05".to_string(),
            is_password: true,
            viewer_count: 321,
            title: "Now".to_string(),
        }
    );
}

#[test]
fn numbers_as_text() {
    assert_eq!(u64_to_text(0), "0");
    assert_eq!(u64_to_text(7), "7");
    assert_eq!(u64_to_text(10), "10");
    assert_eq!(u64_to_text(8001), "8001");
    assert_eq!(u64_to_text(u64::MAX), "18446744073709551615");
}

#[test]
fn numbers_in_fixed_width() {
    let mut out = vec![b'>'];
    write_padded(&mut out, 5, 4);
    assert_eq!(out, b">0005");
    write_padded(&mut out, 123456, 6);
    assert_eq!(out, b">0005123456");
    write_padded(&mut out, 123456, 4);
    assert_eq!(out, b">00051234563456");
    write_padded(&mut out, 9, 0);
    assert_eq!(out, b">00051234563456");
    let mut out = Vec::new();
    write_padded(&mut out, 0, 2);
    assert_eq!(out, b"00");
}

#[test]
fn bytes_as_text() {
    assert_eq!(decode_text(b""), "");
    assert_eq!(decode_text("héllo".as_bytes()), "héllo");
    assert_eq!(decode_text(b"a\x80b"), "a\u{fffd}b");
}

#[test]
fn message_types_and_codes() {
    assert_eq!(MessageType::Ping.to_code(), 0);
    assert_eq!(MessageType::Connect.to_code(), 1);
    assert_eq!(MessageType::JOIN.to_code(), 2);
    assert_eq!(MessageType::Unknown.to_code(), 0);
    assert_eq!(MessageType::from(0), MessageType::Ping);
    assert_eq!(MessageType::from(1), MessageType::Connect);
    assert_eq!(MessageType::from(2), MessageType::JOIN);
    assert_eq!(MessageType::from(3), MessageType::Unknown);
    assert_eq!(MessageType::from(u32::MAX), MessageType::Unknown);
}
