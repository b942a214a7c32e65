use lottery_bot::calendar::calendar_end;
use lottery_bot::calendar::calendar_start;
use lottery_bot::calendar::Announcement;
use lottery_bot::calendar::CalendarStartEvent;
use lottery_bot::calendar::Delivery;
use lottery_bot::calendar::EndStage;
use lottery_bot::calendar::NotifyTo;
use lottery_bot::calendar::StartStage;
use lottery_bot::discord::checkLastSubmission;
use lottery_bot::discord::submit;
use lottery_bot::discord::CheckStage;
use lottery_bot::discord::DiscordConfig;
use lottery_bot::discord::Submission;
use lottery_bot::discord::SubmitStage;
use lottery_bot::discord::WebhookBody;
use lottery_bot::emoji::LotteryConfig;
use lottery_bot::error::Error;
use lottery_bot::events;
use lottery_bot::http::Method;
use lottery_bot::http::Request;
use lottery_bot::interactive_bot;
use lottery_bot::kv::CreateNamespaceBody;
use lottery_bot::kv::CreateNamespaceResult;
use lottery_bot::kv::Error as StoreError;
use lottery_bot::kv::ExpectResultResponse;
use lottery_bot::kv::Guess;
use lottery_bot::kv::KVConfig;
use lottery_bot::kv::NoResultResponse;
use lottery_bot::kv::ReadReply;
use lottery_bot::slack::PostMessageError;
use lottery_bot::slack::PostMessageResp;
use lottery_bot::slack::SlackConfig;
use lottery_bot::Action;
use lottery_bot::BodyKind;
use lottery_bot::BotConfig;
use lottery_bot::Event;
use lottery_bot::Inbound;
use lottery_bot::MessageEvent;
use lottery_bot::Reply;
use lottery_bot::State;
use lottery_bot::Step;

const BASE: &str = "https://api.cloudflare.com/client/v4/accounts/acct/storage/kv/namespaces";

fn lottery(active: bool, jackpot: &str, season: u64, retry_in_hrs: i64, data: &str) -> LotteryConfig {
    LotteryConfig {
        has_winner: false,
        active,
        jackpot: jackpot.to_string(),
        season,
        retry_in_hrs,
        config_kv_namespace: "cfg".to_string(),
        data_kv_namespace: data.to_string(),
    }
}

fn bot() -> BotConfig {
    BotConfig {
        discord: DiscordConfig {
            gateway_token: "gw".to_string(),
            webhook_url: "https://discord.example/hook/1".to_string(),
            maintainer: "@dee".to_string(),
        },
        kv: KVConfig { token: "SECRET".to_string(), account_id: "acct".to_string() },
        slack: SlackConfig {
            token: "xoxb".to_string(),
            announcement_channel: "C123".to_string(),
            maintainer: "@sam".to_string(),
        },
        emoji: lottery(false, "", 0, 4, "data0"),
    }
}

fn store_headers() -> Vec<(String, String)> {
    vec![
        ("Authorization".to_string(), "Bearer SECRET".to_string()),
        ("Content-type".to_string(), "application/json".to_string()),
    ]
}

fn get(url: String) -> Request<()> {
    Request { url, method: Method::GET, headers: store_headers(), body: () }
}

fn put<T>(url: String, body: T) -> Request<T> {
    Request { url, method: Method::PUT, headers: store_headers(), body }
}

fn config_url() -> String {
    format!("{}/cfg/values/lotteryConfig", BASE)
}

fn arrived(path: &str) -> Event {
    Event::Arrived { url: format!("https://bot.example.com{}", path), ticks: 1_600_000_000_000 }
}

fn calendar_body(name: &str) -> Event {
    Event::Body(Ok(Inbound::Calendar(CalendarStartEvent { calendar_name: name.to_string() })))
}

fn submission_body(value: &str, ts: i64) -> Event {
    Event::Body(Ok(Inbound::Submission(Submission { submission: value.to_string(), ts })))
}

fn ok_answer() -> Event {
    Event::Answered(Ok(NoResultResponse { success: true, errors: vec![], messages: vec![] }))
}

fn refusal(code: u16, message: &str) -> NoResultResponse {
    NoResultResponse {
        success: false,
        errors: vec![StoreError { code, message: message.to_string() }],
        messages: vec![],
    }
}

fn not_found() -> NoResultResponse {
    refusal(10009, "key not found")
}

fn failed(text: &str) -> Step {
    Step { state: State::Responded, action: Action::Respond(Err(text.to_string())) }
}

fn said(text: &str) -> Step {
    Step { state: State::Responded, action: Action::Respond(Ok(Reply::Text(text.to_string()))) }
}

fn acknowledged() -> Step {
    Step { state: State::Responded, action: Action::Respond(Ok(Reply::Done)) }
}

fn guess(value: &str, created_at: i64) -> Guess {
    Guess { value: value.to_string(), created_at }
}

#[test]
fn season_start_runs_to_the_announcement() {
    let bot = bot();
    let step = interactive_bot(State::Received, arrived("/calendar_start"), &bot);
    assert_eq!(step.action, Action::ReadBody(BodyKind::Calendar));
    assert_eq!(step.state, State::Start(StartStage::Body { ticks: 1_600_000_000_000 }));

    let step = interactive_bot(step.state, calendar_body("Winter"), &bot);
    assert_eq!(step.action, Action::ReadConfig(get(config_url())));

    let stored = lottery(false, "\u{1F3F4}", 3, 4, "data3");
    let step = interactive_bot(step.state, Event::ConfigRead(Ok(ReadReply::Found(stored))), &bot);
    assert_eq!(
        step.action,
        Action::DeleteNamespace(Request {
            url: format!("{}/data3", BASE),
            method: Method::DELETE,
            headers: store_headers(),
            body: (),
        })
    );

    let step = interactive_bot(step.state, ok_answer(), &bot);
    assert_eq!(
        step.action,
        Action::CreateNamespace(Request {
            url: BASE.to_string(),
            method: Method::POST,
            headers: store_headers(),
            body: CreateNamespaceBody { title: "lottery-bot-data-test".to_string() },
        })
    );

    let created = Event::Created(Ok(ExpectResultResponse {
        result: Some(CreateNamespaceResult {
            id: "data4".to_string(),
            title: "lottery-bot-data-test".to_string(),
            supports_url_encoding: true,
        }),
        success: true,
        errors: vec![],
        messages: vec![],
    }));
    let step = interactive_bot(step.state, created, &bot);
    assert_eq!(
        step.state,
        State::Start(StartStage::Write { name: "Winter".to_string(), season: 4 })
    );
    match &step.action {
        Action::WriteConfig(request) => {
            assert_eq!(request.url, config_url());
            assert_eq!(request.method, Method::PUT);
            assert_eq!(request.headers, store_headers());
            let written = &request.body;
            assert!(written.active);
            assert!(!written.has_winner);
            assert_eq!(written.season, 4);
            assert_eq!(written.retry_in_hrs, 4);
            assert_eq!(written.config_kv_namespace, "cfg");
            assert_eq!(written.data_kv_namespace, "data4");
            let chars: Vec<char> = written.jackpot.chars().collect();
            assert_eq!(chars.len(), 1);
            assert!(0x1F3F4 <= chars[0] as u32 && (chars[0] as u32) < 0x1F600);
        }
        other => panic!("unexpected action {:?}", other),
    }

    let step = interactive_bot(step.state, ok_answer(), &bot);
    assert_eq!(step.state, State::Start(StartStage::Notify));
    assert_eq!(
        step.action,
        Action::Announce(Announcement::Discord(Request {
            url: "https://discord.example/hook/1".to_string(),
            method: Method::POST,
            headers: vec![("Content-type".to_string(), "application/json".to_string())],
            body: WebhookBody { content: "Winter season 4 commence".to_string() },
        }))
    );

    let step = interactive_bot(step.state, Event::Delivered(Delivery::Discord(Ok(()))), &bot);
    assert_eq!(step, acknowledged());
}

#[test]
fn season_start_without_stored_state_uses_the_configured_one() {
    let bot = bot();
    let stage = StartStage::Config { ticks: 5, name: "Spring".to_string() };
    let step = calendar_start(
        stage,
        Event::ConfigRead(Ok(ReadReply::Refused(not_found()))),
        &bot,
        NotifyTo::Slack,
    );
    assert_eq!(
        step.state,
        State::Start(StartStage::Delete {
            ticks: 5,
            name: "Spring".to_string(),
            current: bot.emoji.clone(),
        })
    );
    match step.action {
        Action::DeleteNamespace(request) => assert_eq!(request.url, format!("{}/data0", BASE)),
        other => panic!("unexpected action {:?}", other),
    }
}

#[test]
fn season_start_announces_to_slack_when_told_so() {
    let bot = bot();
    let step = calendar_start(
        StartStage::Write { name: "Winter".to_string(), season: 4 },
        ok_answer(),
        &bot,
        NotifyTo::Slack,
    );
    match step.action {
        Action::Announce(Announcement::Slack(request)) => {
            assert_eq!(request.url, "https://slack.com/api/chat.postMessage");
            assert_eq!(request.body.channel, "C123");
            assert_eq!(request.body.text, "Winter season 4 commence");
        }
        other => panic!("unexpected action {:?}", other),
    }
}

#[test]
fn season_start_failures_end_the_exchange() {
    let bot = bot();
    assert_eq!(
        calendar_start(
            StartStage::Body { ticks: 1 },
            Event::Body(Err("missing field".to_string())),
            &bot,
            NotifyTo::Discord
        ),
        failed("Failed to deserialize into CalendarStartEvent, err: missing field")
    );
    assert_eq!(
        calendar_start(
            StartStage::Config { ticks: 1, name: "W".to_string() },
            Event::ConfigRead(Err(Error::Jv("offline".to_string()))),
            &bot,
            NotifyTo::Discord
        ),
        failed("Failed to read emoji lottery config, err: offline")
    );
    assert_eq!(
        calendar_start(
            StartStage::Config { ticks: 1, name: "W".to_string() },
            Event::ConfigRead(Ok(ReadReply::Refused(refusal(10000, "auth")))),
            &bot,
            NotifyTo::Discord
        ),
        failed("Failed to read emoji lottery config, err: kv error, code: 10000, message: auth")
    );
    let current = lottery(false, "", 3, 4, "data3");
    assert_eq!(
        calendar_start(
            StartStage::Delete { ticks: 1, name: "W".to_string(), current: current.clone() },
            Event::Answered(Ok(refusal(10000, "auth"))),
            &bot,
            NotifyTo::Discord
        ),
        failed("Failed to delete namespace, err: kv error, code: 10000, message: auth cc @dee")
    );
    assert_eq!(
        calendar_start(
            StartStage::Delete { ticks: 1, name: "W".to_string(), current: current.clone() },
            Event::Answered(Err(Error::Jv("offline".to_string()))),
            &bot,
            NotifyTo::Discord
        ),
        failed("Failed to delete namespace, err: offline cc @dee")
    );
    assert_eq!(
        calendar_start(
            StartStage::Delete { ticks: 1, name: "W".to_string(), current: current.clone() },
            Event::Answered(Ok(NoResultResponse {
                success: false,
                errors: vec![],
                messages: vec![]
            })),
            &bot,
            NotifyTo::Discord
        ),
        failed("Failed to delete namespace, err: kv reported a failure without an error cc @dee")
    );
    assert_eq!(
        calendar_start(
            StartStage::Create { ticks: 1, name: "W".to_string(), current: current.clone() },
            Event::Created(Ok(ExpectResultResponse {
                result: None,
                success: true,
                errors: vec![],
                messages: vec![]
            })),
            &bot,
            NotifyTo::Discord
        ),
        failed("Failed to create namespace, err: kv returned no result cc @dee")
    );
    assert_eq!(
        calendar_start(
            StartStage::Create { ticks: 1, name: "W".to_string(), current: current.clone() },
            Event::Created(Ok(ExpectResultResponse {
                result: None,
                success: false,
                errors: vec![],
                messages: vec![]
            })),
            &bot,
            NotifyTo::Discord
        ),
        failed("Failed to create namespace, err: kv returned no result cc @dee")
    );
    assert_eq!(
        calendar_start(
            StartStage::Create { ticks: 1, name: "W".to_string(), current },
            Event::Created(Err(Error::SerdeJson("eof".to_string()))),
            &bot,
            NotifyTo::Discord
        ),
        failed("Failed to create namespace, err: eof cc @dee")
    );
}

#[test]
fn failed_write_of_the_state_calls_the_maintainer() {
    let bot = bot();
    let stage = || StartStage::Write { name: "W".to_string(), season: 4 };
    assert_eq!(
        calendar_start(stage(), Event::Answered(Ok(refusal(7, "no"))), &bot, NotifyTo::Discord),
        failed("Failed to write new emoji lottery config, err: kv error, code: 7, message: no cc @dee")
    );
    assert_eq!(
        calendar_start(stage(), Event::Answered(Err(Error::NoWindow)), &bot, NotifyTo::Slack),
        failed(
            "Failed to write new emoji lottery config, err: The runtime doesn't expose a Window interface cc @sam"
        )
    );
    assert_eq!(
        calendar_end(
            EndStage::Write { name: "W".to_string(), season: 4 },
            Event::Answered(Ok(refusal(7, "no"))),
            &bot,
            NotifyTo::Slack
        ),
        failed("Failed to write new emoji lottery config, err: kv error, code: 7, message: no cc @sam")
    );
}

#[test]
fn failed_announcement_ends_the_exchange_with_a_failure() {
    let bot = bot();
    assert_eq!(
        calendar_start(
            StartStage::Notify,
            Event::Delivered(Delivery::Discord(Err(Error::Jv("fetch failed".to_string())))),
            &bot,
            NotifyTo::Discord
        ),
        failed("Failed to notify, err: fetch failed cc @dee")
    );
    let refused = PostMessageResp::Failed(PostMessageError {
        ok: false,
        error: "channel_not_found".to_string(),
    });
    assert_eq!(
        calendar_end(
            EndStage::Notify,
            Event::Delivered(Delivery::Slack(Err(Error::SerdeJson("eof".to_string())))),
            &bot,
            NotifyTo::Slack
        ),
        failed("Failed to notify, err: eof cc @sam")
    );
    assert_eq!(
        calendar_end(
            EndStage::Notify,
            Event::Delivered(Delivery::Slack(Ok(refused))),
            &bot,
            NotifyTo::Slack
        ),
        failed("channel_not_found")
    );
}

#[test]
fn season_counter_at_its_end_cannot_start_a_season() {
    let bot = bot();
    let exhausted = lottery(false, "", u64::MAX, 4, "d");
    assert_eq!(
        calendar_start(
            StartStage::Config { ticks: 1, name: "W".to_string() },
            Event::ConfigRead(Ok(ReadReply::Found(exhausted.clone()))),
            &bot,
            NotifyTo::Discord
        ),
        failed("The season counter is exhausted")
    );
    assert_eq!(
        calendar_start(
            StartStage::Create { ticks: 1, name: "W".to_string(), current: exhausted },
            Event::Created(Ok(ExpectResultResponse {
                result: Some(CreateNamespaceResult {
                    id: "n".to_string(),
                    title: "t".to_string(),
                    supports_url_encoding: false
                }),
                success: true,
                errors: vec![],
                messages: vec![]
            })),
            &bot,
            NotifyTo::Discord
        ),
        failed("The season counter is exhausted")
    );
}

#[test]
fn season_end_runs_to_the_announcement() {
    let bot = bot();
    let step = interactive_bot(State::Received, arrived("/calendar_end"), &bot);
    assert_eq!(step.state, State::End(EndStage::Body));
    assert_eq!(step.action, Action::ReadBody(BodyKind::Calendar));

    let step = interactive_bot(step.state, calendar_body("Winter"), &bot);
    assert_eq!(step.action, Action::ReadConfig(get(config_url())));

    let mut stored = lottery(true, "\u{1F419}", 4, 6, "data4");
    stored.has_winner = true;
    let step = interactive_bot(step.state, Event::ConfigRead(Ok(ReadReply::Found(stored))), &bot);
    let mut ended = lottery(false, "\u{1F419}", 4, 6, "data4");
    ended.has_winner = true;
    assert_eq!(step.action, Action::WriteConfig(put(config_url(), ended)));
    assert_eq!(step.state, State::End(EndStage::Write { name: "Winter".to_string(), season: 4 }));

    let step = interactive_bot(step.state, ok_answer(), &bot);
    match &step.action {
        Action::Announce(Announcement::Discord(request)) => {
            assert_eq!(request.body.content, "Winter season 4 ends")
        }
        other => panic!("unexpected action {:?}", other),
    }

    let step = interactive_bot(step.state, Event::Delivered(Delivery::Discord(Ok(()))), &bot);
    assert_eq!(step, acknowledged());
}

#[test]
fn season_end_failures_end_the_exchange() {
    let bot = bot();
    assert_eq!(
        calendar_end(
            EndStage::Body,
            Event::Body(Err("bad".to_string())),
            &bot,
            NotifyTo::Discord
        ),
        failed("Failed to deserialize into CalendarStartEvent, err: bad")
    );
    assert_eq!(
        calendar_end(
            EndStage::Config { name: "W".to_string() },
            Event::ConfigRead(Err(Error::Jv("offline".to_string()))),
            &bot,
            NotifyTo::Discord
        ),
        failed("Failed to read emoji lottery config, err: offline")
    );
}

fn submit_until_decision(last: Result<ReadReply<Guess>, Error>, config: LotteryConfig, value: &str, ts: i64) -> Step {
    let bot = bot();
    let step = interactive_bot(State::Received, arrived("/submit/discord/alice"), &bot);
    assert_eq!(step.state, State::Submit(SubmitStage::Body { submitter: "alice".to_string() }));
    assert_eq!(step.action, Action::ReadBody(BodyKind::Submission));
    let step = interactive_bot(step.state, submission_body(value, ts), &bot);
    assert_eq!(step.action, Action::ReadConfig(get(config_url())));
    let data = config.data_kv_namespace.clone();
    let step = interactive_bot(step.state, Event::ConfigRead(Ok(ReadReply::Found(config))), &bot);
    assert_eq!(step.action, Action::ReadGuess(get(format!("{}/{}/values/alice", BASE, data))));
    interactive_bot(step.state, Event::GuessRead(last), &bot)
}

#[test]
fn first_guess_is_accepted_and_persisted() {
    let bot = bot();
    let step = submit_until_decision(
        Ok(ReadReply::Refused(not_found())),
        lottery(true, "\u{1F389}", 1, 4, "data1"),
        "\u{1F642}",
        1000,
    );
    assert_eq!(
        step.action,
        Action::WriteGuess(put(format!("{}/data1/values/alice", BASE), guess("\u{1F642}", 1000)))
    );
    assert_eq!(step.state, State::Submit(SubmitStage::Write { retry_in_hrs: 4 }));
    let step = interactive_bot(step.state, ok_answer(), &bot);
    assert_eq!(step, said("Not quite what I had in mind, try again in 4 hrs"));
}

#[test]
fn early_resubmission_is_told_the_retry_time() {
    let step = submit_until_decision(
        Ok(ReadReply::Found(guess("\u{1F642}", 1000))),
        lottery(true, "\u{1F389}", 1, 4, "data1"),
        "\u{1F600}",
        1000 + 3 * 3600,
    );
    assert_eq!(step, said("please submit after 1970-01-01T04:16:40"));
}

#[test]
fn resubmission_at_the_retry_time_is_accepted() {
    let step = submit_until_decision(
        Ok(ReadReply::Found(guess("\u{1F642}", 1000))),
        lottery(true, "\u{1F389}", 1, 4, "data1"),
        "\u{1F600}",
        1000 + 4 * 3600,
    );
    assert_eq!(
        step.action,
        Action::WriteGuess(put(
            format!("{}/data1/values/alice", BASE),
            guess("\u{1F600}", 1000 + 4 * 3600)
        ))
    );
}

#[test]
fn jackpot_guess_wins_without_a_write() {
    let step = submit_until_decision(
        Ok(ReadReply::Found(guess("\u{1F642}", 1000))),
        lottery(true, "\u{1F389}", 1, 4, "data1"),
        "\u{1F389}",
        1001,
    );
    assert_eq!(step, said("Bingo!"));
}

#[test]
fn guess_while_inactive_is_rejected_without_a_write() {
    let step = submit_until_decision(
        Ok(ReadReply::Refused(not_found())),
        lottery(false, "\u{1F389}", 1, 4, "data1"),
        "\u{1F389}",
        1001,
    );
    assert_eq!(step, said("No active lottery yet, wait for the next announcement!"));
}

#[test]
fn failed_read_of_the_last_guess_is_fatal() {
    let step = submit_until_decision(
        Ok(ReadReply::Refused(refusal(10000, "auth"))),
        lottery(true, "\u{1F389}", 1, 4, "data1"),
        "x",
        1001,
    );
    assert_eq!(step, failed("Can't retrieve last try, err: kv error, code: 10000, message: auth"));
    let step = submit_until_decision(
        Err(Error::Jv("offline".to_string())),
        lottery(true, "\u{1F389}", 1, 4, "data1"),
        "x",
        1001,
    );
    assert_eq!(step, failed("Can't retrieve last try, err: offline"));
}

#[test]
fn submit_failures_end_the_exchange() {
    let bot = bot();
    assert_eq!(
        submit(
            SubmitStage::Body { submitter: "alice".to_string() },
            Event::Body(Err("ts is not a number".to_string())),
            &bot
        ),
        failed("Failed to deserialize into Submission, err: ts is not a number")
    );
    assert_eq!(
        submit(
            SubmitStage::Config { submitter: "alice".to_string(), incoming: guess("x", 1) },
            Event::ConfigRead(Err(Error::Jv("offline".to_string()))),
            &bot
        ),
        failed("Failed to read emoji lottery config, err: offline")
    );
    assert_eq!(
        submit(
            SubmitStage::Write { retry_in_hrs: 4 },
            Event::Answered(Ok(refusal(7, "no"))),
            &bot
        ),
        failed("Failed to submit, err: kv error, code: 7, message: no cc @dee")
    );
}

#[test]
fn accepted_text_names_negative_hours() {
    let bot = bot();
    assert_eq!(
        submit(SubmitStage::Write { retry_in_hrs: -3 }, ok_answer(), &bot),
        said("Not quite what I had in mind, try again in -3 hrs")
    );
}

#[test]
fn guess_without_stored_state_meets_the_configured_one() {
    let bot = bot();
    let step = submit(
        SubmitStage::Config { submitter: "alice".to_string(), incoming: guess("x", 1) },
        Event::ConfigRead(Ok(ReadReply::Refused(not_found()))),
        &bot,
    );
    assert_eq!(step.action, Action::ReadGuess(get(format!("{}/data0/values/alice", BASE))));
    let step = interactive_bot(step.state, Event::GuessRead(Ok(ReadReply::Refused(not_found()))), &bot);
    assert_eq!(step, said("No active lottery yet, wait for the next announcement!"));
}

#[test]
fn check_without_a_guess_is_no_error() {
    let bot = bot();
    let step = interactive_bot(State::Received, arrived("/submit/discord/last/bob"), &bot);
    assert_eq!(step.state, State::Check(CheckStage::Config { submitter: "bob".to_string() }));
    assert_eq!(step.action, Action::ReadConfig(get(config_url())));
    let stored = lottery(true, "\u{1F389}", 2, 4, "data2");
    let step = interactive_bot(step.state, Event::ConfigRead(Ok(ReadReply::Found(stored))), &bot);
    assert_eq!(step.state, State::Check(CheckStage::Last));
    assert_eq!(step.action, Action::ReadGuess(get(format!("{}/data2/values/bob", BASE))));
    let step = interactive_bot(step.state, Event::GuessRead(Ok(ReadReply::Refused(not_found()))), &bot);
    assert_eq!(step, said("You haven't submitted anything yet!"));
}

#[test]
fn check_shows_the_last_guess() {
    let bot = bot();
    let step = checkLastSubmission(
        CheckStage::Last,
        Event::GuessRead(Ok(ReadReply::Found(guess("\u{1F642}", 1000)))),
        &bot,
    );
    assert_eq!(step, said("\u{1F642} submitted at 1970-01-01 00:16:40 UTC"));
}

#[test]
fn check_failures_end_the_exchange() {
    let bot = bot();
    assert_eq!(
        checkLastSubmission(
            CheckStage::Config { submitter: "bob".to_string() },
            Event::ConfigRead(Err(Error::Jv("offline".to_string()))),
            &bot
        ),
        failed("Failed to read emoji lottery config, err: offline")
    );
    assert_eq!(
        checkLastSubmission(
            CheckStage::Last,
            Event::GuessRead(Ok(ReadReply::Refused(refusal(1, "x")))),
            &bot
        ),
        failed("Failed to check last submission, err: kv error, code: 1, message: x")
    );
    assert_eq!(
        checkLastSubmission(
            CheckStage::Last,
            Event::GuessRead(Ok(ReadReply::Found(guess("x", i64::MAX)))),
            &bot
        ),
        failed("The last submission was made at a time no calendar holds")
    );
}

#[test]
fn unknown_path_has_no_handler() {
    let step = interactive_bot(State::Received, arrived("/unknown/path"), &bot());
    assert_eq!(step, failed("No handler defined for route \"/unknown/path\""));
}

#[test]
fn submit_path_without_submitter_has_no_handler() {
    let step = interactive_bot(State::Received, arrived("/submit/discord"), &bot());
    assert_eq!(step, failed("No handler defined for route \"/submit/discord\""));
}

#[test]
fn invalid_url_is_reported() {
    let event = Event::Arrived { url: "not a url".to_string(), ticks: 0 };
    let step = interactive_bot(State::Received, event, &bot());
    assert_eq!(step, failed("\"not a url\" is not a valid url"));
}

#[test]
fn chat_event_is_acknowledged() {
    let bot = bot();
    let step = interactive_bot(State::Received, arrived("/events"), &bot);
    assert_eq!(step.state, State::Events);
    assert_eq!(step.action, Action::ReadBody(BodyKind::Message));
    let message = MessageEvent {
        ty: "message".to_string(),
        channel: "C2147483705".to_string(),
        user: "U2147483697".to_string(),
        text: "Hello world".to_string(),
        timestamp: "1355517523.000005".to_string(),
    };
    let step = interactive_bot(step.state, Event::Body(Ok(Inbound::Message(message))), &bot);
    assert_eq!(step, acknowledged());
}

#[test]
fn chat_event_with_a_bad_body_fails() {
    assert_eq!(events(Event::Body(Err("bad body".to_string()))), failed("bad body"));
    assert_eq!(events(ok_answer()), failed("unexpected event"));
    assert_eq!(events(calendar_body("x")), failed("unexpected event"));
}

#[test]
fn events_out_of_turn_end_the_exchange() {
    let bot = bot();
    assert_eq!(interactive_bot(State::Received, ok_answer(), &bot), failed("unexpected event"));
    assert_eq!(
        interactive_bot(State::Responded, arrived("/events"), &bot),
        failed("unexpected event")
    );
    assert_eq!(
        interactive_bot(State::Start(StartStage::Body { ticks: 0 }), ok_answer(), &bot),
        failed("unexpected event")
    );
    assert_eq!(
        interactive_bot(
            State::Start(StartStage::Body { ticks: 0 }),
            submission_body("x", 1),
            &bot
        ),
        failed("unexpected event")
    );
    assert_eq!(
        interactive_bot(State::End(EndStage::Notify), ok_answer(), &bot),
        failed("unexpected event")
    );
    assert_eq!(
        interactive_bot(
            State::Submit(SubmitStage::Write { retry_in_hrs: 1 }),
            calendar_body("x"),
            &bot
        ),
        failed("unexpected event")
    );
    assert_eq!(
        interactive_bot(State::Check(CheckStage::Last), ok_answer(), &bot),
        failed("unexpected event")
    );
}

fn create_request() -> Action {
    Action::CreateNamespace(Request {
        url: BASE.to_string(),
        method: Method::POST,
        headers: store_headers(),
        body: CreateNamespaceBody { title: "lottery-bot-data-test".to_string() },
    })
}

#[test]
fn namespace_that_is_not_there_does_not_stop_the_season_start() {
    let bot = bot();
    let current = lottery(false, "", 3, 4, "data3");
    let stage = || StartStage::Delete { ticks: 1, name: "W".to_string(), current: current.clone() };
    let after = State::Start(StartStage::Create {
        ticks: 1,
        name: "W".to_string(),
        current: current.clone(),
    });

    let done = calendar_start(stage(), ok_answer(), &bot, NotifyTo::Discord);
    assert_eq!(done.state, after);
    assert_eq!(done.action, create_request());

    let gone = Event::Answered(Ok(refusal(10013, "namespace not found")));
    let step = calendar_start(stage(), gone, &bot, NotifyTo::Discord);
    assert_eq!(step, done);

    let gone = Event::Answered(Ok(NoResultResponse {
        success: false,
        errors: vec![
            StoreError { code: 10013, message: "namespace not found".to_string() },
            StoreError { code: 1, message: "more".to_string() },
        ],
        messages: vec![],
    }));
    let step = interactive_bot(State::Start(stage()), gone, &bot);
    assert_eq!(step, done);
}

#[test]
fn namespace_not_found_is_only_forgiven_for_a_deletion() {
    let bot = bot();
    assert_eq!(
        calendar_start(
            StartStage::Write { name: "W".to_string(), season: 4 },
            Event::Answered(Ok(refusal(10013, "namespace not found"))),
            &bot,
            NotifyTo::Discord
        ),
        failed(
            "Failed to write new emoji lottery config, err: kv error, code: 10013, message: namespace not found cc @dee"
        )
    );
    assert_eq!(
        submit(
            SubmitStage::Write { retry_in_hrs: 4 },
            Event::Answered(Ok(refusal(10013, "namespace not found"))),
            &bot
        ),
        failed("Failed to submit, err: kv error, code: 10013, message: namespace not found cc @dee")
    );
    let step = calendar_start(
        StartStage::Delete {
            ticks: 1,
            name: "W".to_string(),
            current: lottery(false, "", 3, 4, "data3"),
        },
        Event::Answered(Ok(refusal(10009, "key not found"))),
        &bot,
        NotifyTo::Discord,
    );
    assert_eq!(
        step,
        failed("Failed to delete namespace, err: kv error, code: 10009, message: key not found cc @dee")
    );
}

#[test]
fn slack_refusal_after_a_started_season_is_answered_with_slacks_reason() {
    let bot = bot();
    let step = calendar_start(
        StartStage::Write { name: "Winter".to_string(), season: 4 },
        ok_answer(),
        &bot,
        NotifyTo::Slack,
    );
    assert_eq!(step.state, State::Start(StartStage::Notify));
    match &step.action {
        Action::Announce(Announcement::Slack(request)) => {
            assert_eq!(request.body.text, "Winter season 4 commence")
        }
        other => panic!("unexpected action {:?}", other),
    }
    let refusal = PostMessageResp::Failed(PostMessageError {
        ok: false,
        error: "not_in_channel".to_string(),
    });
    let step = calendar_start(
        StartStage::Notify,
        Event::Delivered(Delivery::Slack(Ok(refusal))),
        &bot,
        NotifyTo::Slack,
    );
    assert_eq!(step, failed("not_in_channel"));
    assert_eq!(
        calendar_start(
            StartStage::Notify,
            Event::Delivered(Delivery::Slack(Ok(PostMessageResp::Failed(PostMessageError {
                ok: false,
                error: String::new()
            })))),
            &bot,
            NotifyTo::Slack
        ),
        failed("")
    );
}
