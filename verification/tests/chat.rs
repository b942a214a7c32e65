use lottery_bot::calendar::announce;
use lottery_bot::calendar::delivery_result;
use lottery_bot::calendar::Announcement;
use lottery_bot::calendar::Delivery;
use lottery_bot::calendar::NotifyError;
use lottery_bot::calendar::NotifyTo;
use lottery_bot::discord::new_webhook_client;
use lottery_bot::discord::DiscordConfig;
use lottery_bot::discord::WebhookBody;
use lottery_bot::error::Error;
use lottery_bot::http::Method;
use lottery_bot::http::Request;
use lottery_bot::slack::new_slack_client;
use lottery_bot::slack::PostMessageBody;
use lottery_bot::slack::PostMessageError;
use lottery_bot::slack::PostMessageOk;
use lottery_bot::slack::PostMessageReply;
use lottery_bot::slack::PostMessageResp;
use lottery_bot::slack::SlackConfig;

fn slack() -> SlackConfig {
    SlackConfig {
        token: "xoxb".to_string(),
        announcement_channel: "C123".to_string(),
        maintainer: "@sam".to_string(),
    }
}

fn discord() -> DiscordConfig {
    DiscordConfig {
        gateway_token: "gw".to_string(),
        webhook_url: "https://discord.example/hook/1".to_string(),
        maintainer: "@dee".to_string(),
    }
}

fn slack_request(text: &str) -> Request<PostMessageBody> {
    Request {
        url: "https://slack.com/api/chat.postMessage".to_string(),
        method: Method::POST,
        headers: vec![
            ("Authorization".to_string(), "Bearer xoxb".to_string()),
            ("Content-type".to_string(), "application/json".to_string()),
        ],
        body: PostMessageBody { channel: "C123".to_string(), text: text.to_string() },
    }
}

fn discord_request(text: &str) -> Request<WebhookBody> {
    Request {
        url: "https://discord.example/hook/1".to_string(),
        method: Method::POST,
        headers: vec![("Content-type".to_string(), "application/json".to_string())],
        body: WebhookBody { content: text.to_string() },
    }
}

#[test]
fn slack_client_keeps_its_config() {
    assert_eq!(new_slack_client(slack()).config, slack());
}

#[test]
fn slack_post_message_request() {
    assert_eq!(new_slack_client(slack()).post_message("hello".to_string()), slack_request("hello"));
}

#[test]
fn webhook_execute_request() {
    let client = new_webhook_client("https://discord.example/hook/1".to_string());
    assert_eq!(client.url, "https://discord.example/hook/1");
    assert_eq!(client.execute("hello".to_string()), discord_request("hello"));
}

#[test]
fn announce_picks_the_service() {
    assert_eq!(
        announce(NotifyTo::Slack, "hi".to_string(), &slack(), &discord()),
        Announcement::Slack(slack_request("hi"))
    );
    assert_eq!(
        announce(NotifyTo::Discord, "hi".to_string(), &slack(), &discord()),
        Announcement::Discord(discord_request("hi"))
    );
}

fn reply(ok: bool, channel: Option<&str>, ts: Option<&str>, error: Option<&str>) -> PostMessageReply {
    PostMessageReply {
        ok,
        channel: channel.map(|s| s.to_string()),
        ts: ts.map(|s| s.to_string()),
        error: error.map(|s| s.to_string()),
    }
}

#[test]
fn slack_answer_with_error_field_is_a_refusal() {
    assert_eq!(
        PostMessageResp::from_reply(reply(false, None, None, Some("channel_not_found"))),
        Some(PostMessageResp::Failed(PostMessageError {
            ok: false,
            error: "channel_not_found".to_string()
        }))
    );
}

#[test]
fn slack_answer_with_error_field_is_a_refusal_whatever_else_it_holds() {
    assert_eq!(
        PostMessageResp::from_reply(reply(true, Some("C123"), Some("1.2"), Some("odd"))),
        Some(PostMessageResp::Failed(PostMessageError { ok: true, error: "odd".to_string() }))
    );
}

#[test]
fn slack_answer_without_error_field_is_an_acceptance() {
    assert_eq!(
        PostMessageResp::from_reply(reply(true, Some("C123"), Some("1355517523.000005"), None)),
        Some(PostMessageResp::Posted(PostMessageOk {
            ok: true,
            channel: "C123".to_string(),
            ts: "1355517523.000005".to_string()
        }))
    );
}

#[test]
fn slack_answer_with_neither_shape_is_no_answer() {
    assert_eq!(PostMessageResp::from_reply(reply(true, None, None, None)), None);
    assert_eq!(PostMessageResp::from_reply(reply(true, Some("C123"), None, None)), None);
    assert_eq!(PostMessageResp::from_reply(reply(false, None, Some("1.2"), None)), None);
}

#[test]
fn delivery_to_slack() {
    let posted = PostMessageResp::Posted(PostMessageOk {
        ok: true,
        channel: "C123".to_string(),
        ts: "1.2".to_string(),
    });
    assert_eq!(delivery_result(Delivery::Slack(Ok(posted))), Ok(()));
    let failed =
        PostMessageResp::Failed(PostMessageError { ok: false, error: "not_in_channel".to_string() });
    assert_eq!(
        delivery_result(Delivery::Slack(Ok(failed))),
        Err(NotifyError::Refused("not_in_channel".to_string()))
    );
    assert_eq!(
        delivery_result(Delivery::Slack(Err(Error::NoWindow))),
        Err(NotifyError::Failed(Error::NoWindow))
    );
}

#[test]
fn delivery_to_discord() {
    assert_eq!(delivery_result(Delivery::Discord(Ok(()))), Ok(()));
    assert_eq!(
        delivery_result(Delivery::Discord(Err(Error::Jv("fetch failed".to_string())))),
        Err(NotifyError::Failed(Error::Jv("fetch failed".to_string())))
    );
}

#[test]
fn notify_error_in_words() {
    assert_eq!(NotifyError::Refused("not_in_channel".to_string()).to_string(), "not_in_channel");
    assert_eq!(NotifyError::Failed(Error::Jv("fetch failed".to_string())).to_string(), "fetch failed");
}
