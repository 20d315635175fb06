//! Click events and their decoding from queue payloads.

use vstd::prelude::*;
use vstd::string::*;
use vstd::utf8::{encode_utf8, valid_utf8};
use crate::text::opt_text;

verus! {

/// One follow of a short link.
#[derive(Debug, PartialEq, Eq)]
pub struct ClickEvent {
    /// Where the click came from; `None` where the origin is unknown.
    pub ip: Option<String>,
    /// The short code that was followed.
    pub short_code: String,
}

/// What a `ClickEvent` is in contracts: its texts as sequences of characters.
pub struct ClickEventModel {
    pub ip: Option<Seq<char>>,
    pub short_code: Seq<char>,
}

impl View for ClickEvent {
    type V = ClickEventModel;

    open spec fn view(&self) -> ClickEventModel {
        ClickEventModel { ip: opt_text(self.ip), short_code: self.short_code@ }
    }
}

/// Why a payload is no click event.
#[derive(Clone, Copy, Debug, PartialEq, Eq, Structural)]
pub enum DecodeError {
    /// The payload is not a JSON object.
    Malformed,
    /// The object has no member `l`.
    MissingShortCode,
    /// `l` is not a string, or `i` is neither a string nor null.
    InvalidField,
}

/// The text of a failure, for the log.
pub open spec fn decode_error_text(e: DecodeError) -> Seq<char> {
    match e {
        DecodeError::Malformed => "the payload is not a JSON object"@,
        DecodeError::MissingShortCode => "missing field `l`"@,
        DecodeError::InvalidField => "a field is of the wrong type"@,
    }
}

impl DecodeError {
    /// The text of the failure, for the log.
    pub fn describe(&self) -> (r: String)
        ensures
            r@ == decode_error_text(*self),
    {
        match self {
            DecodeError::Malformed => String::from_str("the payload is not a JSON object"),
            DecodeError::MissingShortCode => String::from_str("missing field `l`"),
            DecodeError::InvalidField => String::from_str("a field is of the wrong type"),
        }
    }
}

/// What a JSON object holds under a key.
#[derive(Debug, PartialEq, Eq)]
pub enum Member {
    /// No member has the key.
    Absent,
    /// The member is `null`.
    Null,
    /// The member is a string.
    Text(String),
    /// The member is a number, a boolean, an array or an object.
    Other,
}

/// What a `Member` is in contracts: its texts as sequences of characters.
pub enum MemberModel {
    Absent,
    Null,
    Text(Seq<char>),
    Other,
}

impl View for Member {
    type V = MemberModel;

    open spec fn view(&self) -> MemberModel {
        match *self {
            Member::Absent => MemberModel::Absent,
            Member::Null => MemberModel::Null,
            Member::Text(s) => MemberModel::Text(s@),
            Member::Other => MemberModel::Other,
        }
    }
}

/// The view of an optional member.
pub open spec fn opt_member(o: Option<Member>) -> Option<MemberModel> {
    match o {
        Some(m) => Some(m@),
        None => None,
    }
}

/// The text that `String::from_utf8_lossy` makes of bytes.
pub uninterp spec fn utf8_lossy(bytes: Seq<u8>) -> Seq<char>;

/// What `serde_json` finds under `key` in the JSON document `text`; `None`
/// where `text` is no JSON document or its value is no object.
pub uninterp spec fn json_member(text: Seq<char>, key: Seq<char>) -> Option<MemberModel>;

/// Calls `String::from_utf8_lossy` of std, which decodes UTF-8 and puts the
/// replacement character in place of what is no UTF-8. The contract names the
/// result and adds what std documents of valid input: the text is the one
/// that these bytes encode.
#[verifier::external_body]
fn lossy_text(bytes: &[u8]) -> (r: String)
    ensures
        r@ == utf8_lossy(bytes@),
        valid_utf8(bytes@) ==> encode_utf8(r@) == bytes@,
{
    String::from_utf8_lossy(bytes).into_owned()
}

/// Calls `serde_json::from_str` for a `serde_json::Value` and, on an object,
/// `serde_json::Map::get`. The contract names what comes back: nothing where
/// parsing fails or the value is no object, else the kind of the member under
/// `key`, with the text of a string.
#[verifier::external_body]
fn read_member(text: &str, key: &str) -> (r: Option<Member>)
    ensures
        opt_member(r) == json_member(text@, key@),
{
    match serde_json::from_str::<serde_json::Value>(text) {
        Ok(serde_json::Value::Object(map)) => Some(
            match map.get(key) {
                None => Member::Absent,
                Some(serde_json::Value::Null) => Member::Null,
                Some(serde_json::Value::String(s)) => Member::Text(s.clone()),
                Some(_) => Member::Other,
            },
        ),
        _ => None,
    }
}

/// The event that the members `i` and `l` of a payload make.
pub open spec fn event_of(ip: Option<MemberModel>, link: Option<MemberModel>) -> Result<
    ClickEventModel,
    DecodeError,
> {
    match (ip, link) {
        (None, _) | (_, None) => Err(DecodeError::Malformed),
        (_, Some(MemberModel::Absent)) => Err(DecodeError::MissingShortCode),
        (Some(MemberModel::Absent), Some(MemberModel::Text(l)))
        | (Some(MemberModel::Null), Some(MemberModel::Text(l))) => Ok(
            ClickEventModel { ip: None, short_code: l },
        ),
        (Some(MemberModel::Text(i)), Some(MemberModel::Text(l))) => Ok(
            ClickEventModel { ip: Some(i), short_code: l },
        ),
        _ => Err(DecodeError::InvalidField),
    }
}

/// The event that a payload holds.
pub open spec fn decoded(payload: Seq<u8>) -> Result<ClickEventModel, DecodeError> {
    event_of(
        json_member(utf8_lossy(payload), "i"@),
        json_member(utf8_lossy(payload), "l"@),
    )
}

/// The view of a decoding result.
pub open spec fn result_model(r: Result<ClickEvent, DecodeError>) -> Result<
    ClickEventModel,
    DecodeError,
> {
    match r {
        Ok(e) => Ok(e@),
        Err(e) => Err(e),
    }
}

/// Makes the event of the members `i` and `l` of a payload. `l` must be a
/// string. `i` may be a string, null or absent; without a string the origin is
/// unknown.
pub fn event_from_members(ip: Option<Member>, link: Option<Member>) -> (r: Result<
    ClickEvent,
    DecodeError,
>)
    ensures
        result_model(r) == event_of(opt_member(ip), opt_member(link)),
{
    match (ip, link) {
        (None, _) | (_, None) => Err(DecodeError::Malformed),
        (_, Some(Member::Absent)) => Err(DecodeError::MissingShortCode),
        (Some(Member::Absent), Some(Member::Text(l))) | (Some(Member::Null), Some(Member::Text(l))) => Ok(
            ClickEvent { ip: None, short_code: l },
        ),
        (Some(Member::Text(i)), Some(Member::Text(l))) => Ok(
            ClickEvent { ip: Some(i), short_code: l },
        ),
        _ => Err(DecodeError::InvalidField),
    }
}

/// Decodes a queue payload: a JSON object with the short code under `l` and,
/// optionally, the origin under `i`.
pub fn decode(payload: &[u8]) -> (r: Result<ClickEvent, DecodeError>)
    ensures
        result_model(r) == decoded(payload@),
{
    let text = lossy_text(payload);
    let ip = read_member(text.as_str(), "i");
    let link = read_member(text.as_str(), "l");
    event_from_members(ip, link)
}

} // verus!
