//! The events of a replay's chat.
//!
//! A replay's chat is served as an XML document: a list of elements, one for
//! each thing that happened, a chat line, a follow, a balloon, a mission. The
//! document is read token by token. An element that is known is read to its
//! end, what its children hold is collected, and one event is made of it.

use crate::chat::events::{
    option_view, ChallengeMissionResultEvent, ChallengeMissionResultEventView, ChatEvent, ChatEventView,
    DonationEvent, DonationEventView, Event, EventMeta, EventView, MissionEvent, MissionEventView,
    SimplifiedUserEvent, SimplifiedUserEventView, SubscribeEvent, SubscribeEventView, Timestamp,
};
use crate::chat::parser::raw::now_utc;
use crate::chat::parser::util::{decimal, parse_decimal, text_eq};
use crate::chat::types::{ChatType, DonationType, MissionType, User, UserStatus, UserView};
use crate::error::Error;
use crate::text::{decode_text, text_of};
use quick_xml::events::Event as XmlEvent;
use vstd::prelude::*;
use vstd::slice::slice_subrange;
use vstd::string::*;
use vstd::utf8::*;

verus! {

/// The `'_'` that stands before the amount in the name of a balloon's
/// image.
pub const UNDERSCORE: u8 = 0x5f;

/// The status of a user of whom a replay tells nothing.
pub open spec fn unknown_status() -> UserStatus {
    UserStatus {
        follow: 0,
        is_bj: false,
        is_manager: false,
        is_top_fan: false,
        is_fan: false,
        is_supporter: false,
    }
}

/// The event of a `chat` element: a common chat of a user of unknown
/// status.
pub open spec fn vod_chat(
    received_time: Timestamp,
    message: Seq<char>,
    user_id: Seq<char>,
    nickname: Seq<char>,
) -> EventView {
    EventView::Chat(
        ChatEventView {
            meta: EventMeta { received_time },
            comment: message,
            chat_type: ChatType::Common,
            user: UserView {
                id: user_id,
                label: nickname,
                status: unknown_status(),
                subscribe: None,
            },
            is_admin: false,
            emoticon: None,
        },
    )
}

/// The event of a `follow` element: a first subscription of tier 1.
pub open spec fn vod_follow(
    received_time: Timestamp,
    user_id: Seq<char>,
    nickname: Seq<char>,
) -> EventView {
    EventView::Subscribe(
        SubscribeEventView {
            meta: EventMeta { received_time },
            user_id,
            label: nickname,
            tier: 1,
            renew: 0,
        },
    )
}

/// The event of a balloon of one of the kinds, without rank.
pub open spec fn vod_donation(
    received_time: Timestamp,
    user_id: Seq<char>,
    nickname: Seq<char>,
    amount: u32,
    donation_type: DonationType,
) -> EventView {
    EventView::Donation(
        DonationEventView {
            meta: EventMeta { received_time },
            from: user_id,
            from_label: nickname,
            amount,
            fan_club_ordinal: 0,
            become_top_fan: false,
            donation_type,
        },
    )
}

/// The event of a `fanclub` element: the user joined.
pub open spec fn vod_fanclub(received_time: Timestamp, user_id: Seq<char>) -> EventView {
    EventView::Join(SimplifiedUserEventView { meta: EventMeta { received_time }, user_id })
}

/// `text` where it is not empty, else `fallback`.
pub open spec fn or_else(text: Seq<char>, fallback: Seq<char>) -> Seq<char> {
    if text.len() == 0 {
        fallback
    } else {
        text
    }
}

/// The event of a `challenge_mission` element, by its type. A notice is
/// the result of the mission, a success exactly where the status is
/// `"SUCCESS"`. Every other type is a gift towards a challenge mission; a
/// settlement without a user is laid to the system.
pub open spec fn vod_challenge_mission(
    received_time: Timestamp,
    mission_type: Seq<char>,
    user_id: Seq<char>,
    nickname: Seq<char>,
    amount: u32,
    title: Seq<char>,
    status: Seq<char>,
) -> EventView {
    if mission_type == "CHALLENGE_NOTICE"@ {
        EventView::ChallengeMissionResult(
            ChallengeMissionResultEventView {
                meta: EventMeta { received_time },
                is_success: status == "SUCCESS"@,
                title,
            },
        )
    } else {
        let settle = mission_type == "CHALLENGE_SETTLE"@;
        EventView::MissionDonation(
            MissionEventView {
                meta: EventMeta { received_time },
                from: if settle {
                    or_else(user_id, "system"@)
                } else {
                    user_id
                },
                from_label: if settle {
                    or_else(nickname, "시스템"@)
                } else {
                    nickname
                },
                amount,
                mission_type: MissionType::Challenge,
            },
        )
    }
}

/// Where the last `'_'` of `s` stands, where it has one.
pub open spec fn last_underscore(s: Seq<u8>) -> Option<int>
    decreases s.len(),
{
    if s.len() == 0 {
        None
    } else if s.last() == UNDERSCORE {
        Some(s.len() - 1)
    } else {
        last_underscore(s.drop_last())
    }
}

/// The amount in the name of a balloon's image: the decimal number after
/// the last `'_'` of the name. A name without a `'_'`, or with something
/// else than a number after it, holds none.
pub open spec fn amount_in_name(name: Seq<char>) -> Option<u32> {
    let bytes = encode_utf8(name);
    match last_underscore(bytes) {
        Some(i) => match decimal(bytes.skip(i + 1), u32::MAX as nat) {
            Some(v) => Some(v as u32),
            None => None,
        },
        None => None,
    }
}

/// The amount that a count holds: its decimal number, where it is one.
pub open spec fn amount_in_count(count: Seq<char>) -> Option<u32> {
    match decimal(encode_utf8(count), u32::MAX as nat) {
        Some(v) => Some(v as u32),
        None => None,
    }
}

/// The last `'_'` stands where one stands and none stands after it.
pub proof fn lemma_last_underscore(s: Seq<u8>, end: int)
    requires
        0 <= end <= s.len(),
        forall|k: int| end <= k < s.len() ==> s[k] != UNDERSCORE,
    ensures
        last_underscore(s) == last_underscore(s.take(end)),
        end > 0 && s[end - 1] == UNDERSCORE ==> last_underscore(s) == Some(end - 1),
        end == 0 ==> last_underscore(s) is None,
    decreases s.len() - end,
{
    if end == s.len() {
        assert(s.take(end) =~= s);
    } else {
        lemma_last_underscore(s.drop_last(), end);
        assert(s.drop_last().take(end) =~= s.take(end));
    }
}

/// Reads the amount in the name of a balloon's image.
pub fn balloon_amount(name: &str) -> (r: Option<u32>)
    ensures
        r == amount_in_name(name@),
{
    let bytes = name.as_bytes();
    let mut end: usize = bytes.len();
    while end > 0 && bytes[end - 1] != UNDERSCORE
        invariant
            end <= bytes@.len(),
            forall|k: int| end <= k < bytes@.len() ==> bytes@[k] != UNDERSCORE,
        decreases end,
    {
        end = end - 1;
    }
    proof {
        lemma_last_underscore(bytes@, end as int);
    }
    if end == 0 {
        return None;
    }
    let digits = slice_subrange(bytes, end, bytes.len());
    proof {
        assert(digits@ =~= bytes@.skip(end as int));
    }
    match parse_decimal(digits, 0xffff_ffff) {
        Some(v) => Some(v as u32),
        None => None,
    }
}

/// Reads the amount that a count holds.
pub fn count_amount(count: &str) -> (r: Option<u32>)
    ensures
        r == amount_in_count(count@),
{
    match parse_decimal(count.as_bytes(), 0xffff_ffff) {
        Some(v) => Some(v as u32),
        None => None,
    }
}

/// The event of a `chat` element.
pub fn chat_element_event(
    received_time: Timestamp,
    message: String,
    user_id: String,
    nickname: String,
) -> (event: Event)
    ensures
        event@ == vod_chat(received_time, message@, user_id@, nickname@),
{
    Event::Chat(
        ChatEvent {
            meta: EventMeta { received_time },
            comment: message,
            chat_type: ChatType::Common,
            user: User {
                id: user_id,
                label: nickname,
                status: UserStatus {
                    follow: 0,
                    is_bj: false,
                    is_manager: false,
                    is_top_fan: false,
                    is_fan: false,
                    is_supporter: false,
                },
                subscribe: None,
            },
            is_admin: false,
            emoticon: None,
        },
    )
}

/// The event of a `follow` element.
pub fn follow_element_event(received_time: Timestamp, user_id: String, nickname: String) -> (event:
    Event)
    ensures
        event@ == vod_follow(received_time, user_id@, nickname@),
{
    Event::Subscribe(
        SubscribeEvent {
            meta: EventMeta { received_time },
            user_id,
            label: nickname,
            tier: 1,
            renew: 0,
        },
    )
}

/// The event of an `adballoon` element: one ad balloon.
pub fn adballoon_element_event(
    received_time: Timestamp,
    user_id: String,
    nickname: String,
) -> (event: Event)
    ensures
        event@ == vod_donation(received_time, user_id@, nickname@, 1, DonationType::ADBalloon),
{
    Event::Donation(
        DonationEvent {
            meta: EventMeta { received_time },
            from: user_id,
            from_label: nickname,
            amount: 1,
            fan_club_ordinal: 0,
            become_top_fan: false,
            donation_type: DonationType::ADBalloon,
        },
    )
}

/// The event of a `fanclub` element.
pub fn fanclub_element_event(received_time: Timestamp, user_id: String) -> (event: Event)
    ensures
        event@ == vod_fanclub(received_time, user_id@),
{
    Event::Join(SimplifiedUserEvent { meta: EventMeta { received_time }, user_id })
}

/// The event of a `balloon` element.
pub fn balloon_element_event(
    received_time: Timestamp,
    user_id: String,
    nickname: String,
    amount: u32,
) -> (event: Event)
    ensures
        event@ == vod_donation(received_time, user_id@, nickname@, amount, DonationType::Balloon),
{
    Event::Donation(
        DonationEvent {
            meta: EventMeta { received_time },
            from: user_id,
            from_label: nickname,
            amount,
            fan_club_ordinal: 0,
            become_top_fan: false,
            donation_type: DonationType::Balloon,
        },
    )
}

/// The event of a `challenge_mission` element.
pub fn challenge_mission_element_event(
    received_time: Timestamp,
    mission_type: &str,
    user_id: String,
    nickname: String,
    amount: u32,
    title: String,
    status: &str,
) -> (event: Event)
    ensures
        event@ == vod_challenge_mission(
            received_time,
            mission_type@,
            user_id@,
            nickname@,
            amount,
            title@,
            status@,
        ),
{
    if text_eq(mission_type, "CHALLENGE_NOTICE") {
        Event::ChallengeMissionResult(
            ChallengeMissionResultEvent {
                meta: EventMeta { received_time },
                is_success: text_eq(status, "SUCCESS"),
                title,
            },
        )
    } else {
        let settle = text_eq(mission_type, "CHALLENGE_SETTLE");
        let from = if settle && user_id.as_str().is_empty() {
            "system".to_owned()
        } else {
            user_id
        };
        let from_label = if settle && nickname.as_str().is_empty() {
            "시스템".to_owned()
        } else {
            nickname
        };
        Event::MissionDonation(
            MissionEvent {
                meta: EventMeta { received_time },
                from,
                from_label,
                amount,
                mission_type: MissionType::Challenge,
            },
        )
    }
}

/// `quick_xml::Reader`: a reader of XML. Nothing of it is seen here but the
/// tokens that it gives.
#[verifier::external_type_specification]
#[verifier::external_body]
#[verifier::reject_recursive_types(R)]
pub struct ExXmlReader<R>(quick_xml::Reader<R>);

/// One step of reading an XML document.
#[derive(Debug, Clone, PartialEq, Eq)]
pub enum XmlToken {
    /// An opening tag, with its name.
    Start(Vec<u8>),
    /// A closing tag, with its name.
    End(Vec<u8>),
    /// Character data between tags, as it is written.
    Text(Vec<u8>),
    /// The content of a CDATA section.
    CData(Vec<u8>),
    /// Anything else that is well-formed: an empty element, a comment, a
    /// declaration, a processing instruction, a document type.
    Other,
    /// The document cannot be read here, with the reader's words on why.
    Failed(String),
}

/// The mathematical model of an [`XmlToken`].
pub enum XmlTokenView {
    Start(Seq<u8>),
    End(Seq<u8>),
    Text(Seq<u8>),
    CData(Seq<u8>),
    Other,
    Failed(Seq<char>),
}

impl View for XmlToken {
    type V = XmlTokenView;

    open spec fn view(&self) -> XmlTokenView {
        match *self {
            XmlToken::Start(name) => XmlTokenView::Start(name@),
            XmlToken::End(name) => XmlTokenView::End(name@),
            XmlToken::Text(bytes) => XmlTokenView::Text(bytes@),
            XmlToken::CData(bytes) => XmlTokenView::CData(bytes@),
            XmlToken::Other => XmlTokenView::Other,
            XmlToken::Failed(reason) => XmlTokenView::Failed(reason@),
        }
    }
}

/// The models of a list of tokens.
pub open spec fn tokens_view(tokens: Seq<XmlToken>) -> Seq<XmlTokenView> {
    Seq::new(tokens.len(), |i: int| tokens[i]@)
}

/// The tokens of an XML document, in order, up to the end of the text;
/// with `trim`, character data is given without the white space around it,
/// and not at all where it is nothing else.
pub uninterp spec fn xml_tokens(text: Seq<char>, trim: bool) -> Seq<XmlTokenView>;

/// The tokens that a reader has still to give, up to the end of its text.
pub uninterp spec fn pending_tokens(reader: quick_xml::Reader<&[u8]>) -> Seq<XmlTokenView>;

/// `quick_xml::Reader::from_str`, with `trim_text` of its configuration set
/// to `trim`: a reader that has all the tokens of the text to give.
#[verifier::external_body]
fn xml_reader(text: &str, trim: bool) -> (reader: quick_xml::Reader<&[u8]>)
    ensures
        pending_tokens(reader) == xml_tokens(text@, trim),
{
    let mut reader = quick_xml::Reader::from_str(text);
    reader.config_mut().trim_text(trim);
    reader
}

/// `quick_xml::Reader::read_event_into`: the next token, and nothing at the
/// end of the text. A reader that has failed on anything but ill-formed
/// markup is at its end.
#[verifier::external_body]
fn next_token(reader: &mut quick_xml::Reader<&[u8]>) -> (token: Option<XmlToken>)
    ensures
        match token {
            Some(t) => pending_tokens(*old(reader)).len() > 0 && t@ == pending_tokens(
                *old(reader),
            )[0] && pending_tokens(*final(reader)) == pending_tokens(*old(reader)).skip(1),
            None => pending_tokens(*old(reader)).len() == 0 && pending_tokens(*final(reader)).len()
                == 0,
        },
{
    let mut buf = Vec::new();
    match reader.read_event_into(&mut buf) {
        Ok(XmlEvent::Start(e)) => Some(XmlToken::Start(e.name().as_ref().to_vec())),
        Ok(XmlEvent::End(e)) => Some(XmlToken::End(e.name().as_ref().to_vec())),
        Ok(XmlEvent::Text(e)) => Some(XmlToken::Text(e.to_vec())),
        Ok(XmlEvent::CData(e)) => Some(XmlToken::CData(e.to_vec())),
        Ok(XmlEvent::Eof) => None,
        Ok(_) => Some(XmlToken::Other),
        Err(e) => Some(XmlToken::Failed(e.to_string())),
    }
}

/// Reads an XML document to its end, character data trimmed.
pub fn read_tokens(text: &str) -> (tokens: Vec<XmlToken>)
    ensures
        tokens_view(tokens@) == xml_tokens(text@, true),
{
    let mut reader = xml_reader(text, true);
    let mut tokens: Vec<XmlToken> = Vec::new();
    let ghost all = pending_tokens(reader);
    proof {
        assert(tokens_view(tokens@) + pending_tokens(reader) =~= all);
    }
    loop
        invariant
            tokens_view(tokens@) + pending_tokens(reader) == all,
            all == xml_tokens(text@, true),
        decreases pending_tokens(reader).len(),
    {
        let ghost before = tokens@;
        let ghost pending = pending_tokens(reader);
        match next_token(&mut reader) {
            Some(token) => {
                tokens.push(token);
                proof {
                    assert(tokens_view(tokens@) =~= tokens_view(before).push(pending[0]));
                    assert(tokens_view(tokens@) + pending.skip(1) =~= tokens_view(before)
                        + pending);
                }
            },
            None => {
                proof {
                    assert(tokens_view(tokens@) + pending =~= tokens_view(tokens@));
                }
                return tokens;
            },
        }
    }
}

/// The elements of a replay's chat that are known.
#[derive(Debug, Clone, Copy, PartialEq, Eq, Structural)]
pub enum Element {
    Chat,
    Follow,
    AdBalloon,
    FanClub,
    Balloon,
    ChallengeMission,
}

/// The children of the known elements that are read.
#[derive(Debug, Clone, Copy, PartialEq, Eq, Structural)]
pub enum Child {
    /// `m`: the chat line.
    Message,
    /// `u`: the user's id.
    UserId,
    /// `n`: the user's name.
    Nickname,
    /// `t`: the seconds into the replay.
    Offset,
    /// `fn`: the name of a balloon's image.
    ImageName,
    /// `c`: a count.
    Count,
    /// `type`: the type of a mission element.
    MissionType,
    /// `title`: the title of a mission.
    Title,
    /// `ms`: how a mission ended.
    Status,
}

/// The bytes of a name.
pub open spec fn name_bytes(name: Seq<char>) -> Seq<u8> {
    encode_utf8(name)
}

/// The name of a known element.
pub open spec fn element_name(element: Element) -> Seq<u8> {
    match element {
        Element::Chat => name_bytes("chat"@),
        Element::Follow => name_bytes("follow"@),
        Element::AdBalloon => name_bytes("adballoon"@),
        Element::FanClub => name_bytes("fanclub"@),
        Element::Balloon => name_bytes("balloon"@),
        Element::ChallengeMission => name_bytes("challenge_mission"@),
    }
}

/// The known element of a name, where it names one.
pub open spec fn element_named(name: Seq<u8>) -> Option<Element> {
    if name == name_bytes("chat"@) {
        Some(Element::Chat)
    } else if name == name_bytes("follow"@) {
        Some(Element::Follow)
    } else if name == name_bytes("adballoon"@) {
        Some(Element::AdBalloon)
    } else if name == name_bytes("fanclub"@) {
        Some(Element::FanClub)
    } else if name == name_bytes("balloon"@) {
        Some(Element::Balloon)
    } else if name == name_bytes("challenge_mission"@) {
        Some(Element::ChallengeMission)
    } else {
        None
    }
}

/// The child that a name names inside an element, where the element reads
/// a child of that name. Every element reads `u` and `n`; a chat also `m` and
/// `t`; a balloon also `fn` and `c`; a mission also `type`, `title`, `c` and
/// `ms`.
pub open spec fn child_named(element: Element, name: Seq<u8>) -> Option<Child> {
    if name == name_bytes("u"@) {
        Some(Child::UserId)
    } else if name == name_bytes("n"@) {
        Some(Child::Nickname)
    } else if name == name_bytes("m"@) && element == Element::Chat {
        Some(Child::Message)
    } else if name == name_bytes("t"@) && element == Element::Chat {
        Some(Child::Offset)
    } else if name == name_bytes("fn"@) && element == Element::Balloon {
        Some(Child::ImageName)
    } else if name == name_bytes("c"@) && (element == Element::Balloon || element
        == Element::ChallengeMission) {
        Some(Child::Count)
    } else if name == name_bytes("type"@) && element == Element::ChallengeMission {
        Some(Child::MissionType)
    } else if name == name_bytes("title"@) && element == Element::ChallengeMission {
        Some(Child::Title)
    } else if name == name_bytes("ms"@) && element == Element::ChallengeMission {
        Some(Child::Status)
    } else {
        None
    }
}

/// The child's content is looked for in a CDATA section, not in character
/// data.
pub open spec fn wants_cdata(child: Child) -> bool {
    child == Child::Message || child == Child::Nickname || child == Child::Title
}

/// The content of a child, where the token after its opening tag is of the
/// kind that the child's content is looked for in.
pub open spec fn content_for(child: Child, token: XmlTokenView) -> Option<Seq<char>> {
    match token {
        XmlTokenView::CData(bytes) => if wants_cdata(child) {
            Some(text_of(bytes))
        } else {
            None
        },
        XmlTokenView::Text(bytes) => if wants_cdata(child) {
            None
        } else {
            Some(text_of(bytes))
        },
        _ => None,
    }
}

/// What has been collected of an element.
#[derive(Debug, Clone, PartialEq, Eq)]
pub struct Collected {
    pub message: String,
    pub user_id: String,
    pub nickname: String,
    pub offset: Option<String>,
    pub amount: u32,
    pub mission_type: String,
    pub title: String,
    pub status: String,
}

/// The mathematical model of a [`Collected`].
pub struct CollectedView {
    pub message: Seq<char>,
    pub user_id: Seq<char>,
    pub nickname: Seq<char>,
    pub offset: Option<Seq<char>>,
    pub amount: u32,
    pub mission_type: Seq<char>,
    pub title: Seq<char>,
    pub status: Seq<char>,
}

impl View for Collected {
    type V = CollectedView;

    open spec fn view(&self) -> CollectedView {
        CollectedView {
            message: self.message@,
            user_id: self.user_id@,
            nickname: self.nickname@,
            offset: option_view(self.offset),
            amount: self.amount,
            mission_type: self.mission_type@,
            title: self.title@,
            status: self.status@,
        }
    }
}

/// Nothing collected: every text empty, no offset, the amount 0.
pub open spec fn nothing_collected() -> CollectedView {
    CollectedView {
        message: Seq::<char>::empty(),
        user_id: Seq::<char>::empty(),
        nickname: Seq::<char>::empty(),
        offset: None,
        amount: 0,
        mission_type: Seq::<char>::empty(),
        title: Seq::<char>::empty(),
        status: Seq::<char>::empty(),
    }
}

/// What is collected once a child's content has been read. A text takes
/// the place of what was collected before. The name of an image and a count
/// set the amount where they hold one, and leave it where they hold none.
pub open spec fn collect(c: CollectedView, child: Child, content: Seq<char>) -> CollectedView {
    match child {
        Child::Message => CollectedView { message: content, ..c },
        Child::UserId => CollectedView { user_id: content, ..c },
        Child::Nickname => CollectedView { nickname: content, ..c },
        Child::Offset => CollectedView { offset: Some(content), ..c },
        Child::ImageName => match amount_in_name(content) {
            Some(amount) => CollectedView { amount, ..c },
            None => c,
        },
        Child::Count => match amount_in_count(content) {
            Some(amount) => CollectedView { amount, ..c },
            None => c,
        },
        Child::MissionType => CollectedView { mission_type: content, ..c },
        Child::Title => CollectedView { title: content, ..c },
        Child::Status => CollectedView { status: content, ..c },
    }
}

/// What is collected of an element from the token at `pos` on, given what
/// was collected before, and where the element ends. The element ends after
/// its own closing tag, or at the end of the tokens. After the opening tag of
/// a child that the element reads, the next token is taken: it is the child's
/// content where it is of the kind looked for, and is passed over where it is
/// not, whatever it is. Every other token is passed over. A token that
/// failed ends the element without anything collected.
pub open spec fn element_end(
    tokens: Seq<XmlTokenView>,
    pos: int,
    element: Element,
    c: CollectedView,
) -> (Option<CollectedView>, int)
    decreases tokens.len() - pos,
{
    if pos < 0 || pos >= tokens.len() {
        (Some(c), tokens.len() as int)
    } else {
        match tokens[pos] {
            XmlTokenView::Start(name) => match child_named(element, name) {
                Some(child) => if pos + 1 < tokens.len() {
                    element_end(
                        tokens,
                        pos + 2,
                        element,
                        match content_for(child, tokens[pos + 1]) {
                            Some(content) => collect(c, child, content),
                            None => c,
                        },
                    )
                } else {
                    (Some(c), tokens.len() as int)
                },
                None => element_end(tokens, pos + 1, element, c),
            },
            XmlTokenView::End(name) => if name == element_name(element) {
                (Some(c), pos + 1)
            } else {
                element_end(tokens, pos + 1, element, c)
            },
            XmlTokenView::Failed(_) => (None, pos + 1),
            _ => element_end(tokens, pos + 1, element, c),
        }
    }
}

/// An element ends after where it starts, and not after the tokens.
pub proof fn lemma_element_end(
    tokens: Seq<XmlTokenView>,
    pos: int,
    element: Element,
    c: CollectedView,
)
    requires
        0 <= pos <= tokens.len(),
    ensures
        pos <= element_end(tokens, pos, element, c).1 <= tokens.len(),
        pos < tokens.len() ==> pos < element_end(tokens, pos, element, c).1,
    decreases tokens.len() - pos,
{
    if pos < tokens.len() {
        match tokens[pos] {
            XmlTokenView::Start(name) => match child_named(element, name) {
                Some(child) => {
                    if pos + 1 < tokens.len() {
                        lemma_element_end(
                            tokens,
                            pos + 2,
                            element,
                            match content_for(child, tokens[pos + 1]) {
                                Some(content) => collect(c, child, content),
                                None => c,
                            },
                        );
                    }
                },
                None => {
                    lemma_element_end(tokens, pos + 1, element, c);
                },
            },
            XmlTokenView::End(name) => {
                if name != element_name(element) {
                    lemma_element_end(tokens, pos + 1, element, c);
                }
            },
            XmlTokenView::Failed(_) => {},
            _ => {
                lemma_element_end(tokens, pos + 1, element, c);
            },
        }
    }
}

/// One event of a replay's chat, and for a chat line the seconds into the
/// replay at which it was written, as the document writes them.
#[derive(Debug, Clone, PartialEq, Eq)]
pub struct VodChatItem {
    pub event: Event,
    pub offset: Option<String>,
}

/// The mathematical model of a [`VodChatItem`].
pub struct VodChatItemView {
    pub event: EventView,
    pub offset: Option<Seq<char>>,
}

impl View for VodChatItem {
    type V = VodChatItemView;

    open spec fn view(&self) -> VodChatItemView {
        VodChatItemView {
            event: self.event@,
            offset: option_view(self.offset),
        }
    }
}

/// The models of a list of items.
pub open spec fn items_view(items: Seq<VodChatItem>) -> Seq<VodChatItemView> {
    Seq::new(items.len(), |i: int| items[i]@)
}

/// The item that an element makes of what was collected of it, stamped
/// with `now`.
pub open spec fn item_of(element: Element, c: CollectedView, now: Timestamp) -> VodChatItemView {
    match element {
        Element::Chat => VodChatItemView {
            event: vod_chat(now, c.message, c.user_id, c.nickname),
            offset: c.offset,
        },
        Element::Follow => VodChatItemView {
            event: vod_follow(now, c.user_id, c.nickname),
            offset: None,
        },
        Element::AdBalloon => VodChatItemView {
            event: vod_donation(now, c.user_id, c.nickname, 1, DonationType::ADBalloon),
            offset: None,
        },
        Element::FanClub => VodChatItemView { event: vod_fanclub(now, c.user_id), offset: None },
        Element::Balloon => VodChatItemView {
            event: vod_donation(now, c.user_id, c.nickname, c.amount, DonationType::Balloon),
            offset: None,
        },
        Element::ChallengeMission => VodChatItemView {
            event: vod_challenge_mission(
                now,
                c.mission_type,
                c.user_id,
                c.nickname,
                c.amount,
                c.title,
                c.status,
            ),
            offset: None,
        },
    }
}

/// The items of the tokens from `pos` on, after the items `done`. The
/// opening tag of a known element starts that element: it is read to its
/// end, and makes an item unless a token in it failed. A token that failed
/// outside the known elements fails the document, with its reason. Every
/// other token is passed over.
pub open spec fn items_from(
    tokens: Seq<XmlTokenView>,
    pos: int,
    now: Timestamp,
    done: Seq<VodChatItemView>,
) -> Result<Seq<VodChatItemView>, Seq<char>>
    decreases tokens.len() - pos,
    via items_from_decreases
{
    if pos < 0 || pos >= tokens.len() {
        Ok(done)
    } else {
        match tokens[pos] {
            XmlTokenView::Start(name) => match element_named(name) {
                Some(element) => {
                    let (collected, end) = element_end(
                        tokens,
                        pos + 1,
                        element,
                        nothing_collected(),
                    );
                    items_from(
                        tokens,
                        end,
                        now,
                        match collected {
                            Some(c) => done.push(item_of(element, c, now)),
                            None => done,
                        },
                    )
                },
                None => items_from(tokens, pos + 1, now, done),
            },
            XmlTokenView::Failed(reason) => Err(reason),
            _ => items_from(tokens, pos + 1, now, done),
        }
    }
}

#[via_fn]
proof fn items_from_decreases(
    tokens: Seq<XmlTokenView>,
    pos: int,
    now: Timestamp,
    done: Seq<VodChatItemView>,
) {
    if 0 <= pos < tokens.len() {
        match tokens[pos] {
            XmlTokenView::Start(name) => match element_named(name) {
                Some(element) => {
                    lemma_element_end(tokens, pos + 1, element, nothing_collected());
                },
                None => {},
            },
            _ => {},
        }
    }
}

/// The items of a replay's chat, stamped with `now`, or why the document
/// cannot be read.
pub open spec fn vod_chat_items(text: Seq<char>, now: Timestamp) -> Result<
    Seq<VodChatItemView>,
    Seq<char>,
> {
    items_from(xml_tokens(text, true), 0, now, Seq::<VodChatItemView>::empty())
}

/// The bytes are those of the name.
fn is_named(bytes: &Vec<u8>, name: &str) -> (r: bool)
    ensures
        r == (bytes@ == name_bytes(name@)),
{
    let other = name.as_bytes();
    if bytes.len() != other.len() {
        return false;
    }
    let mut i: usize = 0;
    while i < bytes.len()
        invariant
            i <= bytes@.len(),
            bytes@.len() == other@.len(),
            other@ == name_bytes(name@),
            forall|j: int| 0 <= j < i ==> bytes@[j] == other@[j],
        decreases bytes@.len() - i,
    {
        if bytes[i] != other[i] {
            return false;
        }
        i = i + 1;
    }
    proof {
        assert(bytes@ =~= other@);
    }
    true
}

/// The known element of a name.
pub fn element_of(name: &Vec<u8>) -> (element: Option<Element>)
    ensures
        element == element_named(name@),
{
    if is_named(name, "chat") {
        Some(Element::Chat)
    } else if is_named(name, "follow") {
        Some(Element::Follow)
    } else if is_named(name, "adballoon") {
        Some(Element::AdBalloon)
    } else if is_named(name, "fanclub") {
        Some(Element::FanClub)
    } else if is_named(name, "balloon") {
        Some(Element::Balloon)
    } else if is_named(name, "challenge_mission") {
        Some(Element::ChallengeMission)
    } else {
        None
    }
}

/// The name closes the element.
fn closes(name: &Vec<u8>, element: Element) -> (r: bool)
    ensures
        r == (name@ == element_name(element)),
{
    match element {
        Element::Chat => is_named(name, "chat"),
        Element::Follow => is_named(name, "follow"),
        Element::AdBalloon => is_named(name, "adballoon"),
        Element::FanClub => is_named(name, "fanclub"),
        Element::Balloon => is_named(name, "balloon"),
        Element::ChallengeMission => is_named(name, "challenge_mission"),
    }
}

/// The child that a name names inside an element.
pub fn child_of(element: Element, name: &Vec<u8>) -> (child: Option<Child>)
    ensures
        child == child_named(element, name@),
{
    let chat = element == Element::Chat;
    let balloon = element == Element::Balloon;
    let mission = element == Element::ChallengeMission;
    if is_named(name, "u") {
        Some(Child::UserId)
    } else if is_named(name, "n") {
        Some(Child::Nickname)
    } else if is_named(name, "m") && chat {
        Some(Child::Message)
    } else if is_named(name, "t") && chat {
        Some(Child::Offset)
    } else if is_named(name, "fn") && balloon {
        Some(Child::ImageName)
    } else if is_named(name, "c") && (balloon || mission) {
        Some(Child::Count)
    } else if is_named(name, "type") && mission {
        Some(Child::MissionType)
    } else if is_named(name, "title") && mission {
        Some(Child::Title)
    } else if is_named(name, "ms") && mission {
        Some(Child::Status)
    } else {
        None
    }
}

/// The content of a child in the token after its opening tag.
fn content_of(child: Child, token: &XmlToken) -> (content: Option<String>)
    ensures
        match content {
            Some(s) => content_for(child, token@) == Some(s@),
            None => content_for(child, token@) is None,
        },
{
    let cdata = match child {
        Child::Message => true,
        Child::Nickname => true,
        Child::Title => true,
        _ => false,
    };
    match token {
        XmlToken::CData(bytes) => if cdata {
            Some(decode_text(bytes.as_slice()))
        } else {
            None
        },
        XmlToken::Text(bytes) => if cdata {
            None
        } else {
            Some(decode_text(bytes.as_slice()))
        },
        _ => None,
    }
}

impl Collected {
    /// Nothing collected.
    pub fn new() -> (c: Collected)
        ensures
            c@ == nothing_collected(),
    {
        Collected {
            message: String::new(),
            user_id: String::new(),
            nickname: String::new(),
            offset: None,
            amount: 0,
            mission_type: String::new(),
            title: String::new(),
            status: String::new(),
        }
    }

    /// Takes in the content of a child.
    pub fn collect(self, child: Child, content: String) -> (c: Collected)
        ensures
            c@ == collect(self@, child, content@),
    {
        let mut c = self;
        match child {
            Child::Message => {
                c.message = content;
            },
            Child::UserId => {
                c.user_id = content;
            },
            Child::Nickname => {
                c.nickname = content;
            },
            Child::Offset => {
                c.offset = Some(content);
            },
            Child::ImageName => {
                match balloon_amount(content.as_str()) {
                    Some(amount) => {
                        c.amount = amount;
                    },
                    None => {},
                }
            },
            Child::Count => {
                match count_amount(content.as_str()) {
                    Some(amount) => {
                        c.amount = amount;
                    },
                    None => {},
                }
            },
            Child::MissionType => {
                c.mission_type = content;
            },
            Child::Title => {
                c.title = content;
            },
            Child::Status => {
                c.status = content;
            },
        }
        c
    }

    /// The item that an element makes of what was collected of it.
    pub fn into_item(self, element: Element, now: Timestamp) -> (item: VodChatItem)
        ensures
            item@ == item_of(element, self@, now),
    {
        match element {
            Element::Chat => VodChatItem {
                event: chat_element_event(now, self.message, self.user_id, self.nickname),
                offset: self.offset,
            },
            Element::Follow => VodChatItem {
                event: follow_element_event(now, self.user_id, self.nickname),
                offset: None,
            },
            Element::AdBalloon => VodChatItem {
                event: adballoon_element_event(now, self.user_id, self.nickname),
                offset: None,
            },
            Element::FanClub => VodChatItem {
                event: fanclub_element_event(now, self.user_id),
                offset: None,
            },
            Element::Balloon => VodChatItem {
                event: balloon_element_event(now, self.user_id, self.nickname, self.amount),
                offset: None,
            },
            Element::ChallengeMission => VodChatItem {
                event: challenge_mission_element_event(
                    now,
                    self.mission_type.as_str(),
                    self.user_id,
                    self.nickname,
                    self.amount,
                    self.title,
                    self.status.as_str(),
                ),
                offset: None,
            },
        }
    }
}

/// Reads an element from the token at `start` on, to its end.
pub fn read_element(tokens: &Vec<XmlToken>, start: usize, element: Element) -> (r: (
    Option<Collected>,
    usize,
))
    requires
        start <= tokens@.len(),
    ensures
        (option_view(r.0), r.1 as int) == element_end(
            tokens_view(tokens@),
            start as int,
            element,
            nothing_collected(),
        ),
        start <= r.1 <= tokens@.len(),
{
    let ghost tv = tokens_view(tokens@);
    let n: usize = tokens.len();
    let mut c = Collected::new();
    let mut pos: usize = start;
    while pos < n
        invariant
            start <= pos <= n,
            n == tokens@.len(),
            tv == tokens_view(tokens@),
            element_end(tv, start as int, element, nothing_collected()) == element_end(
                tv,
                pos as int,
                element,
                c@,
            ),
        decreases n - pos,
    {
        proof {
            assert(tv[pos as int] == tokens@[pos as int]@);
        }
        match &tokens[pos] {
            XmlToken::Start(name) => {
                match child_of(element, name) {
                    Some(child) => {
                        if pos + 1 < n {
                            proof {
                                assert(tv[pos + 1] == tokens@[pos + 1]@);
                            }
                            match content_of(child, &tokens[pos + 1]) {
                                Some(content) => {
                                    c = c.collect(child, content);
                                },
                                None => {},
                            }
                            pos = pos + 2;
                        } else {
                            pos = pos + 1;
                        }
                    },
                    None => {
                        pos = pos + 1;
                    },
                }
            },
            XmlToken::End(name) => {
                if closes(name, element) {
                    return (Some(c), pos + 1);
                }
                pos = pos + 1;
            },
            XmlToken::Failed(_) => {
                return (None, pos + 1);
            },
            _ => {
                pos = pos + 1;
            },
        }
    }
    (Some(c), pos)
}

/// The model of a reason for which a document cannot be read.
pub open spec fn items_result_view(r: Result<Vec<VodChatItem>, Error>) -> Result<
    Seq<VodChatItemView>,
    Seq<char>,
> {
    match r {
        Ok(items) => Ok(items_view(items@)),
        Err(Error::Xml(reason)) => Err(reason@),
        Err(_) => Err(Seq::<char>::empty()),
    }
}

/// Makes the items of the tokens of a replay's chat, stamped with `now`.
///
/// Fails with `Xml` exactly where a token failed outside the known
/// elements, with the reason of the first such token.
pub fn items_of_tokens(tokens: &Vec<XmlToken>, now: Timestamp) -> (r: Result<
    Vec<VodChatItem>,
    Error,
>)
    ensures
        items_result_view(r) == items_from(
            tokens_view(tokens@),
            0,
            now,
            Seq::<VodChatItemView>::empty(),
        ),
        r matches Err(e) ==> e is Xml,
{
    let ghost tv = tokens_view(tokens@);
    let n: usize = tokens.len();
    let mut items: Vec<VodChatItem> = Vec::new();
    let mut pos: usize = 0;
    proof {
        assert(items_view(items@) =~= Seq::<VodChatItemView>::empty());
    }
    while pos < n
        invariant
            pos <= n,
            n == tokens@.len(),
            tv == tokens_view(tokens@),
            items_from(tv, 0, now, Seq::<VodChatItemView>::empty()) == items_from(
                tv,
                pos as int,
                now,
                items_view(items@),
            ),
        decreases n - pos,
    {
        proof {
            assert(tv[pos as int] == tokens@[pos as int]@);
        }
        match &tokens[pos] {
            XmlToken::Start(name) => {
                match element_of(name) {
                    Some(element) => {
                        let (collected, end) = read_element(tokens, pos + 1, element);
                        proof {
                            lemma_element_end(tv, pos + 1, element, nothing_collected());
                        }
                        match collected {
                            Some(c) => {
                                let ghost before = items@;
                                items.push(c.into_item(element, now));
                                proof {
                                    assert(items_view(items@) =~= items_view(before).push(
                                        item_of(element, c@, now),
                                    ));
                                }
                            },
                            None => {},
                        }
                        pos = end;
                    },
                    None => {
                        pos = pos + 1;
                    },
                }
            },
            XmlToken::Failed(reason) => {
                return Err(Error::Xml(reason.clone()));
            },
            _ => {
                pos = pos + 1;
            },
        }
    }
    Ok(items)
}

/// Reads a replay's chat and makes its items, stamped with `now`.
///
/// Fails with `Xml` exactly where the document cannot be read outside the
/// known elements.
pub fn parse_vod_chat_xml_at(xml_content: &str, now: Timestamp) -> (r: Result<
    Vec<VodChatItem>,
    Error,
>)
    ensures
        items_result_view(r) == vod_chat_items(xml_content@, now),
        r matches Err(e) ==> e is Xml,
{
    let tokens = read_tokens(xml_content);
    items_of_tokens(&tokens, now)
}

/// Reads a replay's chat and makes its items, stamped with the time of the
/// call: the result is that of the document at one instant, which is the
/// clock's and is not told.
///
/// Fails with `Xml` exactly where the document cannot be read outside the
/// known elements.
pub fn parse_vod_chat_xml(xml_content: &str) -> (r: Result<Vec<VodChatItem>, Error>)
    ensures
        exists|now: Timestamp|
            items_result_view(r) == #[trigger] vod_chat_items(xml_content@, now),
        r matches Err(e) ==> e is Xml,
{
    let now = now_utc();
    let r = parse_vod_chat_xml_at(xml_content, now);
    proof {
        assert(items_result_view(r) == vod_chat_items(xml_content@, now));
    }
    r
}

} // verus!
