//! Missions: gifts towards one, its settled total, and how it ended.
//!
//! Field 0 of a mission body is a JSON document. Its `type` names one of
//! four shapes; the members that a shape needs are read from the document,
//! and the event is made of them.

use crate::chat::events::{
    option_view, BattleMissionResultEvent, BattleMissionResultEventView, ChallengeMissionResultEvent,
    ChallengeMissionResultEventView, EventMeta, EventView, MissionEvent, MissionEventView,
    MissionTotalEvent, MissionTotalEventView, Timestamp,
};
use crate::chat::parser::raw::RawMessage;
use crate::chat::parser::types::{
    AbstractMissionData, BattleMissionResultPayload, ChallengeMissionResultPayload,
    MissionGiftPayload, MissionGiftTotalPayload,
};
use crate::chat::parser::util::{field, text_eq};
use crate::chat::types::{MissionParser, MissionType};
use crate::error::Error;
use vstd::prelude::*;
use vstd::string::*;

verus! {

/// `serde_json::Value`: a JSON value. Nothing of it is seen here but what
/// the readers below hand out.
#[verifier::external_type_specification]
#[verifier::external_body]
pub struct ExJsonValue(serde_json::Value);

/// What can be read of one member of a JSON object.
pub struct JsonMember {
    /// The text of a member that is a string.
    pub text: Option<Seq<char>>,
    /// The number of a member that is a number, or a string or a null that
    /// stands for one.
    pub number: Option<u64>,
    /// The truth value of a member that is one, or a number, a string or a
    /// null that stands for one.
    pub truth: Option<bool>,
}

/// The members of a JSON value that is an object, by their names. A value
/// that is no object has no members.
pub uninterp spec fn json_members(document: serde_json::Value) -> Map<Seq<char>, JsonMember>;

/// The members of the JSON document that a text holds, where it holds one:
/// one JSON value and, around it, nothing but white space.
pub uninterp spec fn document_members(text: Seq<char>) -> Option<Map<Seq<char>, JsonMember>>;

/// The text of the member `key`, where there is such a member and it is a
/// string.
pub open spec fn member_text(members: Map<Seq<char>, JsonMember>, key: Seq<char>) -> Option<
    Seq<char>,
> {
    if members.contains_key(key) {
        members[key].text
    } else {
        None
    }
}

/// The number of the member `key`, where there is such a member and it
/// can be read as a number.
pub open spec fn member_number(members: Map<Seq<char>, JsonMember>, key: Seq<char>) -> Option<
    u64,
> {
    if members.contains_key(key) {
        members[key].number
    } else {
        None
    }
}

/// The truth value of the member `key`, where there is such a member and
/// it can be read as a truth value.
pub open spec fn member_truth(members: Map<Seq<char>, JsonMember>, key: Seq<char>) -> Option<
    bool,
> {
    if members.contains_key(key) {
        members[key].truth
    } else {
        None
    }
}

/// `serde_json::from_str` for a `serde_json::Value`: the document that a
/// text holds, or the reader's words on why it holds none. Nothing is
/// claimed of the words.
#[verifier::external_body]
fn json_document(text: &str) -> (r: Result<serde_json::Value, String>)
    ensures
        match r {
            Ok(document) => document_members(text@) == Some(json_members(document)),
            Err(_) => document_members(text@) is None,
        },
{
    serde_json::from_str::<serde_json::Value>(text).map_err(|e| e.to_string())
}

/// `serde_json::Value::get` with a text key, and `Value::as_str` on what it
/// finds: the text of the member of that name, where the value is an object
/// that has one and the member is a string.
#[verifier::external_body]
fn json_text(document: &serde_json::Value, key: &str) -> (r: Option<String>)
    ensures
        option_view(r) == member_text(json_members(*document), key@),
{
    document.get(key)?.as_str().map(String::from)
}

/// `serde_json::Value::get` with a text key, and
/// `serde_this_or_that::as_u64` on what it finds: the number of the member
/// of that name, whether the document writes it as a number or as a string.
#[verifier::external_body]
fn json_u64(document: &serde_json::Value, key: &str) -> (r: Option<u64>)
    ensures
        r == member_number(json_members(*document), key@),
{
    serde_this_or_that::as_u64(document.get(key)?).ok()
}

/// `serde_json::Value::get` with a text key, and
/// `serde_this_or_that::as_bool` on what it finds: the truth value of the
/// member of that name, whether the document writes it as one, as a number
/// or as a string.
#[verifier::external_body]
fn json_bool(document: &serde_json::Value, key: &str) -> (r: Option<bool>)
    ensures
        r == member_truth(json_members(*document), key@),
{
    serde_this_or_that::as_bool(document.get(key)?).ok()
}

/// What a mission document becomes.
#[derive(Debug, Clone, PartialEq, Eq)]
pub enum MissionOutcome {
    Mission(MissionEvent),
    MissionTotal(MissionTotalEvent),
    BattleNotice(BattleMissionResultEvent),
    ChallengeNotice(ChallengeMissionResultEvent),
}

impl MissionOutcome {
    /// The shape of the document that the outcome came from.
    pub open spec fn shape(self) -> MissionParser {
        match self {
            MissionOutcome::Mission(_) => MissionParser::Mission,
            MissionOutcome::MissionTotal(_) => MissionParser::MissionTotal,
            MissionOutcome::BattleNotice(_) => MissionParser::BattleNotice,
            MissionOutcome::ChallengeNotice(_) => MissionParser::ChallengeNotice,
        }
    }

    /// What the event of the outcome carries of its frame.
    pub open spec fn meta(self) -> EventMeta {
        match self {
            MissionOutcome::Mission(e) => e.meta,
            MissionOutcome::MissionTotal(e) => e.meta,
            MissionOutcome::BattleNotice(e) => e.meta,
            MissionOutcome::ChallengeNotice(e) => e.meta,
        }
    }
}

/// The shape that a document's `type` names.
pub open spec fn mission_shape(message_type: Seq<char>) -> Option<MissionParser> {
    if message_type == "GIFT"@ || message_type == "CHALLENGE_GIFT"@ {
        Some(MissionParser::Mission)
    } else if message_type == "SETTLE"@ || message_type == "CHALLENGE_SETTLE"@ {
        Some(MissionParser::MissionTotal)
    } else if message_type == "NOTICE"@ {
        Some(MissionParser::BattleNotice)
    } else if message_type == "CHALLENGE_NOTICE"@ {
        Some(MissionParser::ChallengeNotice)
    } else {
        None
    }
}

/// The kind of mission that a document of type `message_type` is about,
/// where `challenge` is the type that the challenge missions use for the
/// shape: every other type is about a battle mission.
pub open spec fn mission_type_of(message_type: Seq<char>, challenge: Seq<char>) -> MissionType {
    if message_type == challenge {
        MissionType::Challenge
    } else {
        MissionType::Battle
    }
}

/// The low 32 bits of a count: counts are read as 64-bit numbers and
/// reported as 32-bit ones.
pub open spec fn count_of(amount: u64) -> u32 {
    (amount % 0x1_0000_0000) as u32
}

/// The gift that a gift document makes.
pub open spec fn gift_event(
    received_time: Timestamp,
    user_id: Seq<char>,
    label: Seq<char>,
    amount: u64,
    message_type: Seq<char>,
) -> MissionEventView {
    MissionEventView {
        meta: EventMeta { received_time },
        from: user_id,
        from_label: label,
        amount: count_of(amount),
        mission_type: mission_type_of(message_type, "CHALLENGE_GIFT"@),
    }
}

/// The total that a settlement document makes.
pub open spec fn gift_total_event(
    received_time: Timestamp,
    amount: u64,
    message_type: Seq<char>,
) -> MissionTotalEventView {
    MissionTotalEventView {
        meta: EventMeta { received_time },
        mission_type: mission_type_of(message_type, "CHALLENGE_SETTLE"@),
        amount: count_of(amount),
    }
}

/// The result that a battle notice makes.
pub open spec fn battle_result(
    received_time: Timestamp,
    draw: bool,
    winner: Seq<char>,
    title: Seq<char>,
) -> BattleMissionResultEventView {
    BattleMissionResultEventView { meta: EventMeta { received_time }, is_draw: draw, winner, title }
}

/// The result that a challenge notice makes: a success exactly where the
/// status is `"SUCCESS"`.
pub open spec fn challenge_result(
    received_time: Timestamp,
    status: Seq<char>,
    title: Seq<char>,
) -> ChallengeMissionResultEventView {
    ChallengeMissionResultEventView {
        meta: EventMeta { received_time },
        is_success: status == "SUCCESS"@,
        title,
    }
}

/// The event that a mission document with these members makes, if it was
/// received at `received_time`. The member `type` names the shape. A gift
/// needs `user_id`, `user_nick` and `gift_count`; a settlement needs
/// `settle_count`; a battle notice needs `draw`, `winner` and `title`; a
/// challenge notice needs `missionStatus` and `title`. A document without a
/// `type`, of a type that names no shape, or without a member that its shape
/// needs, makes no event.
pub open spec fn mission_of(received_time: Timestamp, members: Map<Seq<char>, JsonMember>) -> Option<
    EventView,
> {
    match member_text(members, "type"@) {
        None => None,
        Some(message_type) => match mission_shape(message_type) {
            None => None,
            Some(MissionParser::Mission) => match (
                member_text(members, "user_id"@),
                member_text(members, "user_nick"@),
                member_number(members, "gift_count"@),
            ) {
                (Some(user_id), Some(label), Some(amount)) => Some(
                    EventView::MissionDonation(
                        gift_event(received_time, user_id, label, amount, message_type),
                    ),
                ),
                _ => None,
            },
            Some(MissionParser::MissionTotal) => match member_number(members, "settle_count"@) {
                Some(amount) => Some(
                    EventView::MissionTotal(gift_total_event(received_time, amount, message_type)),
                ),
                None => None,
            },
            Some(MissionParser::BattleNotice) => match (
                member_truth(members, "draw"@),
                member_text(members, "winner"@),
                member_text(members, "title"@),
            ) {
                (Some(draw), Some(winner), Some(title)) => Some(
                    EventView::BattleMissionResult(battle_result(received_time, draw, winner, title)),
                ),
                _ => None,
            },
            Some(MissionParser::ChallengeNotice) => match (
                member_text(members, "missionStatus"@),
                member_text(members, "title"@),
            ) {
                (Some(status), Some(title)) => Some(
                    EventView::ChallengeMissionResult(
                        challenge_result(received_time, status, title),
                    ),
                ),
                _ => None,
            },
        },
    }
}

/// Counts are read as 64-bit numbers and reported as 32-bit ones.
fn count(amount: u64) -> (r: u32)
    ensures
        r == count_of(amount),
{
    assert(amount & 0xffff_ffff == amount % 0x1_0000_0000) by (bit_vector);
    assert(amount & 0xffff_ffff <= 0xffff_ffff) by (bit_vector);
    (amount & 0xffff_ffff) as u32
}

/// The shape that a document's `type` names, where it names one.
pub fn mission_parser_of(message_type: &str) -> (shape: Option<MissionParser>)
    ensures
        shape == mission_shape(message_type@),
{
    if text_eq(message_type, "GIFT") || text_eq(message_type, "CHALLENGE_GIFT") {
        Some(MissionParser::Mission)
    } else if text_eq(message_type, "SETTLE") || text_eq(message_type, "CHALLENGE_SETTLE") {
        Some(MissionParser::MissionTotal)
    } else if text_eq(message_type, "NOTICE") {
        Some(MissionParser::BattleNotice)
    } else if text_eq(message_type, "CHALLENGE_NOTICE") {
        Some(MissionParser::ChallengeNotice)
    } else {
        None
    }
}

/// The gift of a gift document that was received at `received_time`.
pub fn parse_gift_event(
    received_time: Timestamp,
    payload: MissionGiftPayload,
    message_type: &str,
) -> (event: MissionEvent)
    ensures
        event@ == gift_event(
            received_time,
            payload.user_id@,
            payload.label@,
            payload.amount,
            message_type@,
        ),
{
    MissionEvent {
        meta: EventMeta { received_time },
        amount: count(payload.amount),
        from: payload.user_id,
        from_label: payload.label,
        mission_type: if text_eq(message_type, "CHALLENGE_GIFT") {
            MissionType::Challenge
        } else {
            MissionType::Battle
        },
    }
}

/// The total of a settlement document that was received at `received_time`.
pub fn parse_gift_total_event(
    received_time: Timestamp,
    payload: MissionGiftTotalPayload,
    message_type: &str,
) -> (event: MissionTotalEvent)
    ensures
        event@ == gift_total_event(received_time, payload.amount, message_type@),
{
    MissionTotalEvent {
        meta: EventMeta { received_time },
        mission_type: if text_eq(message_type, "CHALLENGE_SETTLE") {
            MissionType::Challenge
        } else {
            MissionType::Battle
        },
        amount: count(payload.amount),
    }
}

/// The result of a battle notice that was received at `received_time`.
pub fn parse_battle_result(received_time: Timestamp, payload: BattleMissionResultPayload) -> (event:
    BattleMissionResultEvent)
    ensures
        event@ == battle_result(received_time, payload.draw, payload.winner@, payload.title@),
{
    BattleMissionResultEvent {
        meta: EventMeta { received_time },
        is_draw: payload.draw,
        winner: payload.winner,
        title: payload.title,
    }
}

/// The result of a challenge notice that was received at `received_time`.
pub fn parse_challenge_result(
    received_time: Timestamp,
    payload: ChallengeMissionResultPayload,
) -> (event: ChallengeMissionResultEvent)
    ensures
        event@ == challenge_result(received_time, payload.status@, payload.title@),
{
    ChallengeMissionResultEvent {
        meta: EventMeta { received_time },
        is_success: text_eq(payload.status.as_str(), "SUCCESS"),
        title: payload.title,
    }
}

/// Reads `type`.
fn read_abstract(document: &serde_json::Value) -> (r: Option<AbstractMissionData>)
    ensures
        match r {
            Some(data) => member_text(json_members(*document), "type"@) == Some(
                data.message_type@,
            ),
            None => member_text(json_members(*document), "type"@) is None,
        },
{
    match json_text(document, "type") {
        Some(message_type) => Some(AbstractMissionData { message_type }),
        None => None,
    }
}

/// Reads `user_id`, `user_nick` and `gift_count`.
fn read_gift(document: &serde_json::Value) -> (r: Option<MissionGiftPayload>)
    ensures
        match r {
            Some(p) => {
                &&& member_text(json_members(*document), "user_id"@) == Some(p.user_id@)
                &&& member_text(json_members(*document), "user_nick"@) == Some(p.label@)
                &&& member_number(json_members(*document), "gift_count"@) == Some(p.amount)
            },
            None => {
                ||| member_text(json_members(*document), "user_id"@) is None
                ||| member_text(json_members(*document), "user_nick"@) is None
                ||| member_number(json_members(*document), "gift_count"@) is None
            },
        },
{
    let user_id = json_text(document, "user_id");
    let label = json_text(document, "user_nick");
    let amount = json_u64(document, "gift_count");
    match (user_id, label, amount) {
        (Some(user_id), Some(label), Some(amount)) => Some(
            MissionGiftPayload { user_id, label, amount },
        ),
        _ => None,
    }
}

/// Reads `settle_count`.
fn read_gift_total(document: &serde_json::Value) -> (r: Option<MissionGiftTotalPayload>)
    ensures
        match r {
            Some(p) => member_number(json_members(*document), "settle_count"@) == Some(p.amount),
            None => member_number(json_members(*document), "settle_count"@) is None,
        },
{
    match json_u64(document, "settle_count") {
        Some(amount) => Some(MissionGiftTotalPayload { amount }),
        None => None,
    }
}

/// Reads `draw`, `winner` and `title`.
fn read_battle_result(document: &serde_json::Value) -> (r: Option<BattleMissionResultPayload>)
    ensures
        match r {
            Some(p) => {
                &&& member_truth(json_members(*document), "draw"@) == Some(p.draw)
                &&& member_text(json_members(*document), "winner"@) == Some(p.winner@)
                &&& member_text(json_members(*document), "title"@) == Some(p.title@)
            },
            None => {
                ||| member_truth(json_members(*document), "draw"@) is None
                ||| member_text(json_members(*document), "winner"@) is None
                ||| member_text(json_members(*document), "title"@) is None
            },
        },
{
    let draw = json_bool(document, "draw");
    let winner = json_text(document, "winner");
    let title = json_text(document, "title");
    match (draw, winner, title) {
        (Some(draw), Some(winner), Some(title)) => Some(
            BattleMissionResultPayload { draw, winner, title },
        ),
        _ => None,
    }
}

/// Reads `missionStatus` and `title`.
fn read_challenge_result(document: &serde_json::Value) -> (r: Option<
    ChallengeMissionResultPayload,
>)
    ensures
        match r {
            Some(p) => {
                &&& member_text(json_members(*document), "missionStatus"@) == Some(p.status@)
                &&& member_text(json_members(*document), "title"@) == Some(p.title@)
            },
            None => {
                ||| member_text(json_members(*document), "missionStatus"@) is None
                ||| member_text(json_members(*document), "title"@) is None
            },
        },
{
    let status = json_text(document, "missionStatus");
    let title = json_text(document, "title");
    match (status, title) {
        (Some(status), Some(title)) => Some(ChallengeMissionResultPayload { status, title }),
        _ => None,
    }
}

/// The model of the event that an outcome is published as.
pub open spec fn outcome_view(outcome: MissionOutcome) -> EventView {
    match outcome {
        MissionOutcome::Mission(e) => EventView::MissionDonation(e@),
        MissionOutcome::MissionTotal(e) => EventView::MissionTotal(e@),
        MissionOutcome::BattleNotice(e) => EventView::BattleMissionResult(e@),
        MissionOutcome::ChallengeNotice(e) => EventView::ChallengeMissionResult(e@),
    }
}

/// Makes the event of a mission document that was received at
/// `received_time`.
///
/// Fails with `InternalChannel` exactly where the document makes no event:
/// it has no `type`, its type names no shape, or a member that the shape
/// needs is missing or of another kind.
pub fn read_mission(received_time: Timestamp, document: &serde_json::Value) -> (r: Result<
    (MissionParser, MissionOutcome),
    Error,
>)
    ensures
        match r {
            Ok((shape, outcome)) => {
                &&& mission_of(received_time, json_members(*document)) == Some(
                    outcome_view(outcome),
                )
                &&& outcome.shape() == shape
                &&& outcome.meta().received_time == received_time
            },
            Err(e) => mission_of(received_time, json_members(*document)) is None && e
                is InternalChannel,
        },
{
    let data = match read_abstract(document) {
        Some(data) => data,
        None => {
            return Err(Error::InternalChannel("mission document without a type".to_owned()));
        },
    };
    let message_type = data.message_type.as_str();
    match mission_parser_of(message_type) {
        Some(MissionParser::Mission) => match read_gift(document) {
            Some(payload) => Ok(
                (
                    MissionParser::Mission,
                    MissionOutcome::Mission(parse_gift_event(received_time, payload, message_type)),
                ),
            ),
            None => Err(Error::InternalChannel("mission gift with a member missing".to_owned())),
        },
        Some(MissionParser::MissionTotal) => match read_gift_total(document) {
            Some(payload) => Ok(
                (
                    MissionParser::MissionTotal,
                    MissionOutcome::MissionTotal(
                        parse_gift_total_event(received_time, payload, message_type),
                    ),
                ),
            ),
            None => Err(
                Error::InternalChannel("mission settlement with a member missing".to_owned()),
            ),
        },
        Some(MissionParser::BattleNotice) => match read_battle_result(document) {
            Some(payload) => Ok(
                (
                    MissionParser::BattleNotice,
                    MissionOutcome::BattleNotice(parse_battle_result(received_time, payload)),
                ),
            ),
            None => Err(Error::InternalChannel("mission notice with a member missing".to_owned())),
        },
        Some(MissionParser::ChallengeNotice) => match read_challenge_result(document) {
            Some(payload) => Ok(
                (
                    MissionParser::ChallengeNotice,
                    MissionOutcome::ChallengeNotice(
                        parse_challenge_result(received_time, payload),
                    ),
                ),
            ),
            None => Err(Error::InternalChannel("mission notice with a member missing".to_owned())),
        },
        None => Err(Error::InternalChannel("mission document of an unknown type".to_owned())),
    }
}

/// The event that a mission body makes, if it was received at
/// `received_time`: the event of the JSON document in field 0. A body
/// without a field, or one whose field 0 holds no JSON document, makes none.
pub open spec fn mission_event_of(received_time: Timestamp, body: Seq<Seq<char>>) -> Option<
    EventView,
> {
    if body.len() >= 1 {
        match document_members(body[0]) {
            Some(members) => mission_of(received_time, members),
            None => None,
        }
    } else {
        None
    }
}

/// Reads the mission document in field 0 of a body and makes its event.
///
/// Fails with `InternalChannel` exactly where the body makes no event: it
/// has no field, the field holds no JSON document, or the document makes no
/// event.
pub fn parse_mission_event(raw: RawMessage) -> (r: Result<(MissionParser, MissionOutcome), Error>)
    ensures
        match r {
            Ok((shape, outcome)) => {
                &&& mission_event_of(raw.received_time, raw@.body) == Some(outcome_view(outcome))
                &&& outcome.shape() == shape
                &&& outcome.meta().received_time == raw.received_time
            },
            Err(e) => mission_event_of(raw.received_time, raw@.body) is None && e
                is InternalChannel,
        },
{
    let body = &raw.body;
    if body.len() < 1 {
        return Err(Error::InternalChannel("mission body without a document".to_owned()));
    }
    match json_document(field(body, 0)) {
        Ok(document) => read_mission(raw.received_time, &document),
        Err(reason) => Err(Error::InternalChannel(reason)),
    }
}

} // verus!
