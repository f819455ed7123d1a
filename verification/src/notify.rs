//! What a notification sends, and how the answer to it is read.
//!
//! A notification is one HTTP POST of a form-encoded body to a chat service.
//! The caller looks up the access token, performs the request and hands back
//! what came of it; this module settles what is sent and whether the answer
//! counts as success.

use vstd::prelude::*;
use crate::text::{contains, has_substring, occurs_at};

verus! {

/// Address that notifications are posted to.
pub const NOTIFY_URL: &'static str = "https://slack.com/api/chat.postMessage";

/// Channel that notifications appear in.
pub const NOTIFY_CHANNEL: &'static str = "#drn";

/// Environment variable that holds the access token.
pub const NOTIFY_ENV_VAR: &'static str = "APPVIEW_SLACKBOT_TOKEN";

/// Content type of the request body.
pub const NOTIFY_CONTENT_TYPE: &'static str = "application/x-www-form-urlencoded";

/// What an answer must contain to count as success.
pub const NOTIFY_SUCCESS_MARK: &'static str = ":true";

/// One request, ready to be posted.
#[derive(Debug, PartialEq, Eq)]
pub struct NotifyRequest {
    pub url: String,
    pub content_type: String,
    pub body: String,
}

/// What came of a request.
#[derive(Debug, PartialEq, Eq)]
pub enum NotifyReply {
    /// The service answered with this body.
    Body(String),
    /// The service answered, but the body could not be read; the text says
    /// why.
    Unreadable(String),
    /// The request did not get through.
    Failed,
}

/// What came of a request, as plain values.
pub enum ReplyView {
    Body(Seq<char>),
    Unreadable(Seq<char>),
    Failed,
}

impl View for NotifyReply {
    type V = ReplyView;

    open spec fn view(&self) -> ReplyView {
        match self {
            NotifyReply::Body(body) => ReplyView::Body(body@),
            NotifyReply::Unreadable(why) => ReplyView::Unreadable(why@),
            NotifyReply::Failed => ReplyView::Failed,
        }
    }
}

/// The request body for `message` under the token `key`: token, channel and
/// text as three form fields, the values taken as they are.
pub open spec fn payload_of(key: Seq<char>, message: Seq<char>) -> Seq<char> {
    "token="@ + key + "&channel="@ + NOTIFY_CHANNEL@ + "&text="@ + message
}

/// Whether a reply counts as success: the body of the answer contains the
/// success mark, wherever and however often. That is a test on the text, not
/// a reading of the answer's structure. An answer whose body could not be
/// read is no success, whatever the reason says, and neither is a request
/// that did not get through.
pub open spec fn delivered(reply: ReplyView) -> bool {
    match reply {
        ReplyView::Body(body) => contains(body, NOTIFY_SUCCESS_MARK@),
        ReplyView::Unreadable(_) => false,
        ReplyView::Failed => false,
    }
}

/// An answer that holds the success mark counts as success wherever the
/// mark stands and whatever else the answer says.
pub proof fn lemma_mark_anywhere_is_success(before: Seq<char>, after: Seq<char>)
    ensures
        delivered(ReplyView::Body(before + NOTIFY_SUCCESS_MARK@ + after)),
{
    let mark = NOTIFY_SUCCESS_MARK@;
    let body = before + mark + after;
    assert(occurs_at(body, mark, before.len() as int)) by {
        assert(body.subrange(before.len() as int, (before.len() + mark.len()) as int) =~= mark);
    }
}

/// Builds the request body for `message` under the token `key`.
pub fn notify_payload(key: &str, message: &str) -> (r: String)
    ensures
        r@ == payload_of(key@, message@),
{
    let mut payload = String::new();
    payload.append("token=");
    payload.append(key);
    payload.append("&channel=");
    payload.append(NOTIFY_CHANNEL);
    payload.append("&text=");
    payload.append(message);
    assert(payload@ =~= payload_of(key@, message@));
    payload
}

/// Prepares the request for `message`. Without a token there is nothing to
/// send.
pub fn notify_request(key: Option<String>, message: &str) -> (r: Option<NotifyRequest>)
    ensures
        key is None <==> r is None,
        r matches Some(request) ==> {
            &&& request.url@ == NOTIFY_URL@
            &&& request.content_type@ == NOTIFY_CONTENT_TYPE@
            &&& request.body@ == payload_of(key->0@, message@)
        },
{
    match key {
        None => None,
        Some(token) => Some(
            NotifyRequest {
                url: String::from_str(NOTIFY_URL),
                content_type: String::from_str(NOTIFY_CONTENT_TYPE),
                body: notify_payload(token.as_str(), message),
            },
        ),
    }
}

/// Whether the body of an answer shows success.
pub fn response_ok(body: &str) -> (r: bool)
    ensures
        r == contains(body@, NOTIFY_SUCCESS_MARK@),
{
    has_substring(body, NOTIFY_SUCCESS_MARK)
}

/// Whether a notification got through, given what came of its request.
pub fn notify_result(reply: &NotifyReply) -> (r: bool)
    ensures
        r == delivered(reply@),
{
    match reply {
        NotifyReply::Body(body) => response_ok(body.as_str()),
        NotifyReply::Unreadable(_) => false,
        NotifyReply::Failed => false,
    }
}

/// What a notification comes to, given the reply to its request, or `None`
/// where no request was made: success exactly if there was a request and
/// its reply counts as success. Without a token there is no request, and so
/// no success.
pub fn notify_outcome(reply: Option<&NotifyReply>) -> (r: bool)
    ensures
        r == (reply is Some && delivered(reply->0@)),
{
    match reply {
        Some(reply) => notify_result(reply),
        None => false,
    }
}

} // verus!
