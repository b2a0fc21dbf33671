//! What the HTTP collaborators of the core answer with, and what the
//! library makes of the answers.

use crate::chat::events::texts_view;
use crate::error::Error;
use crate::text::{decimal_text, u64_to_text};
use vstd::prelude::*;
use vstd::string::*;
use vstd::utf8::*;

verus! {

/// The resolver's answer about a stream, as it arrives.
#[derive(Debug, Clone, PartialEq, Eq)]
pub struct RawLiveDetail {
    pub channel: ChannelInfo,
}

/// What the resolver knows of a live stream.
#[derive(Debug, Clone, PartialEq, Eq)]
pub struct LiveDetail {
    pub is_live: bool,
    /// Host of the chat server.
    pub ch_domain: String,
    /// Port of the chat server; the WebSocket listens one above it.
    pub ch_pt: u64,
    /// The room of the stream's chat.
    pub ch_no: String,
    pub streamer_nick: String,
    pub title: String,
    pub categories: Vec<String>,
}

/// The mathematical model of a [`LiveDetail`].
pub struct LiveDetailView {
    pub is_live: bool,
    pub ch_domain: Seq<char>,
    pub ch_pt: u64,
    pub ch_no: Seq<char>,
    pub streamer_nick: Seq<char>,
    pub title: Seq<char>,
    pub categories: Seq<Seq<char>>,
}

impl View for LiveDetail {
    type V = LiveDetailView;

    open spec fn view(&self) -> LiveDetailView {
        LiveDetailView {
            is_live: self.is_live,
            ch_domain: self.ch_domain@,
            ch_pt: self.ch_pt,
            ch_no: self.ch_no@,
            streamer_nick: self.streamer_nick@,
            title: self.title@,
            categories: texts_view(self.categories@),
        }
    }
}

/// The part of the resolver's answer that says whether the stream is live.
#[derive(Debug, Clone, Copy, PartialEq, Eq, Structural)]
pub struct LiveDetailToCheck {
    pub channel: ChannelInfoToCheck,
}

#[derive(Debug, Clone, Copy, PartialEq, Eq, Structural)]
pub struct ChannelInfoToCheck {
    /// 1 while the stream is live.
    pub result: i32,
}

#[derive(Debug, Clone, PartialEq, Eq)]
pub struct ChannelInfo {
    /// 1 while the stream is live.
    pub result: i32,
    pub ch_domain: String,
    pub ch_pt: u64,
    pub chat_no: String,
    pub bj_nick: String,
    pub title: String,
    pub categories: Vec<String>,
}

impl LiveDetailToCheck {
    /// The stream is live.
    pub fn is_streaming(&self) -> (live: bool)
        ensures
            live == (self.channel.result == 1),
    {
        self.channel.result == 1
    }
}

impl RawLiveDetail {
    /// The detail of a stream that is live, field by field from the answer.
    pub fn into_live_detail(self) -> (detail: LiveDetail)
        ensures
            detail.is_live,
            detail.ch_domain == self.channel.ch_domain,
            detail.ch_pt == self.channel.ch_pt,
            detail.ch_no == self.channel.chat_no,
            detail.streamer_nick == self.channel.bj_nick,
            detail.title == self.channel.title,
            detail.categories == self.channel.categories,
    {
        LiveDetail {
            is_live: true,
            ch_domain: self.channel.ch_domain,
            ch_pt: self.channel.ch_pt,
            ch_no: self.channel.chat_no,
            streamer_nick: self.channel.bj_nick,
            title: self.channel.title,
            categories: self.channel.categories,
        }
    }
}

/// The station endpoint's answer, as it arrives.
#[derive(Debug, Clone, PartialEq, Eq)]
pub struct RawStation {
    pub station: StationState,
    pub broad: BroadState,
}

/// What is known of a station and its running broadcast.
#[derive(Debug, Clone, PartialEq, Eq)]
pub struct Station {
    pub broad_start: String,
    pub is_password: bool,
    pub viewer_count: u64,
    pub title: String,
}

#[derive(Debug, Clone, PartialEq, Eq)]
pub struct StationState {
    pub broad_start: String,
}

#[derive(Debug, Clone, PartialEq, Eq)]
pub struct BroadState {
    pub is_password: bool,
    pub viewer_count: u64,
    pub title: String,
}

impl RawStation {
    /// The station, field by field from the answer.
    pub fn into_station(self) -> (station: Station)
        ensures
            station.broad_start == self.station.broad_start,
            station.is_password == self.broad.is_password,
            station.viewer_count == self.broad.viewer_count,
            station.title == self.broad.title,
    {
        Station {
            broad_start: self.station.broad_start,
            is_password: self.broad.is_password,
            viewer_count: self.broad.viewer_count,
            title: self.broad.title,
        }
    }
}

#[derive(Debug, Clone, PartialEq, Eq)]
pub struct SignatureEmoticonResponse {
    pub result: i32,
    pub data: SignatureEmoticonData,
}

/// The signature emoticons of a streamer, by subscription tier.
#[derive(Debug, Clone, PartialEq, Eq)]
pub struct SignatureEmoticonData {
    pub tier_1: Vec<Emoticon>,
    pub tier_2: Vec<Emoticon>,
}

#[derive(Debug, Clone, PartialEq, Eq)]
pub struct Emoticon {
    pub title: String,
    pub pc_img: String,
    pub mobile_img: String,
}

/// A replay in a streamer's list.
#[derive(Debug, Clone, PartialEq, Eq)]
pub struct VOD {
    pub id: u64,
    pub title: String,
    pub thumbnail_url: String,
    pub duration: u64,
}

/// The mathematical model of a [`VOD`].
pub struct VODView {
    pub id: u64,
    pub title: Seq<char>,
    pub thumbnail_url: Seq<char>,
    pub duration: u64,
}

impl View for VOD {
    type V = VODView;

    open spec fn view(&self) -> VODView {
        VODView {
            id: self.id,
            title: self.title@,
            thumbnail_url: self.thumbnail_url@,
            duration: self.duration,
        }
    }
}

/// A replay with its files.
#[derive(Debug, Clone, PartialEq, Eq)]
pub struct VODDetail {
    pub id: String,
    pub title: String,
    pub channel_id: String,
    pub broad_start: String,
    pub files: Vec<VODFile>,
}

/// The mathematical model of a [`VODDetail`].
pub struct VODDetailView {
    pub id: Seq<char>,
    pub title: Seq<char>,
    pub channel_id: Seq<char>,
    pub broad_start: Seq<char>,
    pub files: Seq<VODFileView>,
}

impl View for VODDetail {
    type V = VODDetailView;

    open spec fn view(&self) -> VODDetailView {
        VODDetailView {
            id: self.id@,
            title: self.title@,
            channel_id: self.channel_id@,
            broad_start: self.broad_start@,
            files: Seq::new(self.files@.len(), |i: int| self.files@[i]@),
        }
    }
}

/// One file of a replay.
#[derive(Debug, Clone, PartialEq, Eq)]
pub struct VODFile {
    pub id: u64,
    pub order: u32,
    pub file_key: String,
    pub file_start: String,
    /// Where the file's chat is served from.
    pub chat: String,
    /// Playing time in microseconds.
    pub duration: u64,
}

/// The mathematical model of a [`VODFile`].
pub struct VODFileView {
    pub id: u64,
    pub order: u32,
    pub file_key: Seq<char>,
    pub file_start: Seq<char>,
    pub chat: Seq<char>,
    pub duration: u64,
}

impl View for VODFile {
    type V = VODFileView;

    open spec fn view(&self) -> VODFileView {
        VODFileView {
            id: self.id,
            order: self.order,
            file_key: self.file_key@,
            file_start: self.file_start@,
            chat: self.chat@,
            duration: self.duration,
        }
    }
}

/// The replay list endpoint's answer, as it arrives.
#[derive(Debug, Clone, PartialEq, Eq)]
pub struct RawVODResponse {
    pub data: Vec<RawVOD>,
}

#[derive(Debug, Clone, PartialEq, Eq)]
pub struct RawVOD {
    pub title_no: u64,
    pub title_name: String,
    /// Who may watch; 101 is everyone.
    pub auth_no: u32,
    pub ucc: RawVODUcc,
}

#[derive(Debug, Clone, PartialEq, Eq)]
pub struct RawVODUcc {
    /// Address of the thumbnail, without its scheme.
    pub thumb: String,
    pub total_file_duration: u64,
}

/// The replay detail endpoint's answer, as it arrives.
#[derive(Debug, Clone, PartialEq, Eq)]
pub struct RawVODDetailResponse {
    /// 1 where the replay was found.
    pub result: i32,
    pub data: Option<RawVODDetailData>,
}

#[derive(Debug, Clone, PartialEq, Eq)]
pub struct RawVODDetailData {
    pub title_no: u64,
    pub full_title: String,
    pub bj_id: String,
    pub broad_start: String,
    pub files: Vec<RawVODDetailFile>,
}

#[derive(Debug, Clone, PartialEq, Eq)]
pub struct RawVODDetailFile {
    pub idx: u64,
    pub file_order: u32,
    pub file_info_key: String,
    pub file_start: String,
    pub chat: String,
    pub duration: u64,
}

/// The `auth_no` of a replay that everyone may watch.
pub const PUBLIC_AUTH: u32 = 101;

/// The list entry that an answered replay becomes, if it is public.
pub open spec fn listed_vod(v: RawVOD) -> Option<VODView> {
    if v.auth_no == PUBLIC_AUTH {
        Some(
            VODView {
                id: v.title_no,
                title: v.title_name@,
                thumbnail_url: "https:"@ + v.ucc.thumb@,
                duration: v.ucc.total_file_duration,
            },
        )
    } else {
        None
    }
}

/// The models of a list of replays.
pub open spec fn vods_view(v: Seq<VOD>) -> Seq<VODView> {
    Seq::new(v.len(), |i: int| v[i]@)
}

/// The file that an answered file becomes.
pub open spec fn vod_file_of(f: RawVODDetailFile) -> VODFileView {
    VODFileView {
        id: f.idx,
        order: f.file_order,
        file_key: f.file_info_key@,
        file_start: f.file_start@,
        chat: f.chat@,
        duration: f.duration,
    }
}

/// The replay that an answered detail becomes.
pub open spec fn vod_detail_of(d: RawVODDetailData) -> VODDetailView {
    VODDetailView {
        id: decimal_text(d.title_no as nat),
        title: d.full_title@,
        channel_id: d.bj_id@,
        broad_start: d.broad_start@,
        files: Seq::new(d.files@.len(), |i: int| vod_file_of(d.files@[i])),
    }
}

impl RawVODResponse {
    /// The public replays of the answer, in its order.
    pub fn into_vods(self) -> (vods: Vec<VOD>)
        ensures
            vods_view(vods@) == self.data@.filter_map(|v: RawVOD| listed_vod(v)),
    {
        let ghost f = |v: RawVOD| listed_vod(v);
        let mut vods: Vec<VOD> = Vec::new();
        let mut i: usize = 0;
        proof {
            assert(self.data@.take(0) =~= Seq::<RawVOD>::empty());
            assert(vods_view(vods@) =~= self.data@.take(0).filter_map(f));
        }
        while i < self.data.len()
            invariant
                i <= self.data@.len(),
                f == |v: RawVOD| listed_vod(v),
                vods_view(vods@) == self.data@.take(i as int).filter_map(f),
            decreases self.data@.len() - i,
        {
            let vod = &self.data[i];
            let ghost before = vods@;
            if vod.auth_no == PUBLIC_AUTH {
                let mut thumbnail_url: String = "https:".to_owned();
                thumbnail_url.append(vod.ucc.thumb.as_str());
                vods.push(
                    VOD {
                        id: vod.title_no,
                        title: vod.title_name.clone(),
                        thumbnail_url,
                        duration: vod.ucc.total_file_duration,
                    },
                );
            }
            proof {
                let next = self.data@.take(i + 1);
                assert(next.drop_last() =~= self.data@.take(i as int));
                assert(next.last() == self.data@[i as int]);
                if vod.auth_no == PUBLIC_AUTH {
                    assert(vods_view(vods@) =~= vods_view(before) + seq![listed_vod(*vod)->0]);
                }
            }
            i = i + 1;
        }
        proof {
            assert(self.data@.take(i as int) =~= self.data@);
        }
        vods
    }
}

impl RawVODDetailResponse {
    /// The replay of the answer. Fails with `ApiError` where the service did
    /// not find the replay (`result` is not 1) or sent no data with it.
    pub fn into_vod_detail(self) -> (r: Result<VODDetail, Error>)
        ensures
            match r {
                Ok(detail) => self.result == 1 && self.data is Some && detail@ == vod_detail_of(
                    self.data->0,
                ),
                Err(e) => (self.result != 1 || self.data is None) && e is ApiError,
            },
    {
        if self.result != 1 {
            return Err(Error::ApiError("VOD not found".to_owned()));
        }
        match self.data {
            None => Err(Error::ApiError("VOD data not available".to_owned())),
            Some(data) => {
                let mut files: Vec<VODFile> = Vec::new();
                let mut i: usize = 0;
                while i < data.files.len()
                    invariant
                        i <= data.files@.len(),
                        files@.len() == i,
                        forall|k: int| 0 <= k < i ==> #[trigger] files@[k]@ == vod_file_of(data.files@[k]),
                    decreases data.files@.len() - i,
                {
                    let file = &data.files[i];
                    files.push(
                        VODFile {
                            id: file.idx,
                            order: file.file_order,
                            file_key: file.file_info_key.clone(),
                            file_start: file.file_start.clone(),
                            chat: file.chat.clone(),
                            duration: file.duration,
                        },
                    );
                    i = i + 1;
                }
                let detail = VODDetail {
                    id: u64_to_text(data.title_no),
                    title: data.full_title,
                    channel_id: data.bj_id,
                    broad_start: data.broad_start,
                    files,
                };
                proof {
                    assert(detail@.files =~= vod_detail_of(data).files);
                }
                Ok(detail)
            },
        }
    }
}

} // verus!
