//! Slack: the request that posts a message, and what Slack's answer means.

use crate::http::bearer_header;
use crate::http::bearer_headers;
use crate::http::json_header;
use crate::http::lemma_headers_well_formed;
use crate::http::Method;
use crate::http::Request;
use crate::http::RequestView;
use vstd::prelude::*;
use vstd::string::*;

verus! {

/// How the bot talks to Slack.
#[derive(Debug, PartialEq, Eq)]
pub struct SlackConfig {
    pub token: String,
    pub announcement_channel: String,
    pub maintainer: String,
}

impl Clone for SlackConfig {
    fn clone(&self) -> (copy: Self)
        ensures
            copy == *self,
    {
        SlackConfig {
            token: self.token.clone(),
            announcement_channel: self.announcement_channel.clone(),
            maintainer: self.maintainer.clone(),
        }
    }
}

/// A message event as Slack delivers it.
#[derive(Debug, PartialEq, Eq)]
pub struct MessageEvent {
    pub ty: String,
    pub channel: String,
    pub user: String,
    pub text: String,
    /// Slack's timestamps are compared as texts.
    pub timestamp: String,
}

/// The model of a [`PostMessageBody`].
pub struct PostMessageBodyView {
    pub channel: Seq<char>,
    pub text: Seq<char>,
}

/// What `chat.postMessage` is sent.
#[derive(Debug, PartialEq, Eq)]
pub struct PostMessageBody {
    pub channel: String,
    pub text: String,
}

impl View for PostMessageBody {
    type V = PostMessageBodyView;

    open spec fn view(&self) -> PostMessageBodyView {
        PostMessageBodyView { channel: self.channel@, text: self.text@ }
    }
}

/// Slack's answer to a posted message, told apart by what it holds.
#[derive(Debug, PartialEq, Eq)]
pub enum PostMessageResp {
    Posted(PostMessageOk),
    Failed(PostMessageError),
}

/// Slack took the message.
#[derive(Debug, PartialEq, Eq)]
pub struct PostMessageOk {
    pub ok: bool,
    pub channel: String,
    pub ts: String,
}

/// Slack refused the message.
#[derive(Debug, PartialEq, Eq)]
pub struct PostMessageError {
    pub ok: bool,
    pub error: String,
}

/// The fields of Slack's answer as they came, each present or not.
#[derive(Debug, PartialEq, Eq)]
pub struct PostMessageReply {
    pub ok: bool,
    pub channel: Option<String>,
    pub ts: Option<String>,
    pub error: Option<String>,
}

/// The rule that tells Slack's two answers apart: an answer with an error
/// field is a refusal, whatever else it holds; one without is an acceptance
/// where it names the channel and the timestamp, and is no answer at all
/// where it does not.
pub open spec fn discriminate(reply: PostMessageReply) -> Option<PostMessageResp> {
    if reply.error is Some {
        Some(
            PostMessageResp::Failed(
                PostMessageError { ok: reply.ok, error: reply.error.unwrap() },
            ),
        )
    } else if reply.channel is Some && reply.ts is Some {
        Some(
            PostMessageResp::Posted(
                PostMessageOk {
                    ok: reply.ok,
                    channel: reply.channel.unwrap(),
                    ts: reply.ts.unwrap(),
                },
            ),
        )
    } else {
        None
    }
}

impl PostMessageResp {
    /// Tells Slack's two answers apart by the presence of the error field.
    pub fn from_reply(reply: PostMessageReply) -> (resp: Option<PostMessageResp>)
        ensures
            resp == discriminate(reply),
    {
        match reply.error {
            Some(error) => Some(PostMessageResp::Failed(PostMessageError { ok: reply.ok, error })),
            None => match (reply.channel, reply.ts) {
                (Some(channel), Some(ts)) => Some(
                    PostMessageResp::Posted(PostMessageOk { ok: reply.ok, channel, ts }),
                ),
                _ => None,
            },
        }
    }
}

/// A client of Slack's web API.
#[derive(Debug, PartialEq, Eq)]
pub struct SlackClient {
    pub config: SlackConfig,
}

/// A client that posts with the credentials in `config`.
pub fn new_slack_client(config: SlackConfig) -> (client: SlackClient)
    ensures
        client.config == config,
{
    return SlackClient { config };
}

impl SlackClient {
    /// The request that posts `message` to the announcement channel.
    pub open spec fn post_request(self, message: Seq<char>) -> RequestView<PostMessageBodyView> {
        RequestView {
            url: "https://slack.com/api/chat.postMessage"@,
            method: Method::POST,
            headers: seq![bearer_header(self.config.token@), json_header()],
            body: PostMessageBodyView { channel: self.config.announcement_channel@, text: message },
        }
    }

    /// The request that posts `message` to the announcement channel. What
    /// comes back is told apart by [`PostMessageResp::from_reply`].
    pub fn post_message(&self, message: String) -> (request: Request<PostMessageBody>)
        ensures
            request@ == self.post_request(message@),
            request@.well_formed(),
    {
        proof {
            lemma_headers_well_formed(self.post_request(message@), self.config.token@);
        }
        Request {
            url: String::from_str("https://slack.com/api/chat.postMessage"),
            method: Method::POST,
            headers: bearer_headers(self.config.token.as_str()),
            body: PostMessageBody {
                channel: self.config.announcement_channel.clone(),
                text: message,
            },
        }
    }
}

} // verus!
