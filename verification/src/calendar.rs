//! The season's calendar: announcing, and the two operations that start and
//! end a season.

use crate::discord::new_webhook_client;
use crate::discord::DiscordConfig;
use crate::discord::WebhookBody;
use crate::discord::WebhookClient;
use crate::emoji::is_lottery_emoji;
use crate::emoji::LotteryConfig;
use crate::emoji::LotteryConfigView;
use crate::engine::config_client;
use crate::engine::config_store;
use crate::engine::current_config;
use crate::engine::current_of;
use crate::engine::done;
use crate::engine::fail;
use crate::engine::fail_loudly;
use crate::engine::fails;
use crate::engine::join;
use crate::engine::load;
use crate::engine::loaded;
use crate::engine::mention;
use crate::engine::refused;
use crate::engine::responds;
use crate::engine::settle;
use crate::engine::settle_deletion;
use crate::engine::undeleted;
use crate::engine::Action;
use crate::engine::ActionView;
use crate::engine::BodyKind;
use crate::engine::BotConfig;
use crate::engine::Event;
use crate::engine::Inbound;
use crate::engine::ReplyView;
use crate::engine::State;
use crate::engine::Step;
use crate::error::Error;
use crate::error::ErrorView;
use crate::http::Request;
use crate::http::RequestView;
use crate::kv::result_outcome;
use crate::kv::NoResultResponse;
use crate::kv::NAMESPACE_NOT_FOUND;
use crate::kv::CreateNamespaceResult;
use crate::kv::ExpectResultResponse;
use crate::slack::new_slack_client;
use crate::slack::PostMessageBody;
use crate::slack::PostMessageBodyView;
use crate::slack::PostMessageResp;
use crate::slack::SlackClient;
use crate::slack::SlackConfig;
use crate::text::decimal;
use crate::text::push_decimal;
use vstd::prelude::*;
use vstd::string::*;

verus! {

/// The body of a request that starts or ends a season.
#[derive(Debug, PartialEq, Eq)]
pub struct CalendarStartEvent {
    pub calendar_name: String,
}

/// The chat service that an announcement goes to.
#[derive(Clone, Copy, Debug, PartialEq, Eq, Structural)]
pub enum NotifyTo {
    Discord,
    Slack,
}

/// The model of an [`Announcement`].
pub enum AnnouncementView {
    Slack(RequestView<PostMessageBodyView>),
    Discord(RequestView<Seq<char>>),
}

/// The request that carries an announcement to its chat service.
#[derive(Debug, PartialEq, Eq)]
pub enum Announcement {
    Slack(Request<PostMessageBody>),
    Discord(Request<WebhookBody>),
}

impl View for Announcement {
    type V = AnnouncementView;

    open spec fn view(&self) -> AnnouncementView {
        match self {
            Announcement::Slack(request) => AnnouncementView::Slack(request@),
            Announcement::Discord(request) => AnnouncementView::Discord(request@),
        }
    }
}

/// The announcement of `message` to the service `to`.
pub open spec fn announcement(
    to: NotifyTo,
    message: Seq<char>,
    slack: SlackConfig,
    discord: DiscordConfig,
) -> AnnouncementView {
    match to {
        NotifyTo::Slack => AnnouncementView::Slack(
            (SlackClient { config: slack }).post_request(message),
        ),
        NotifyTo::Discord => AnnouncementView::Discord(
            (WebhookClient { url: discord.webhook_url }).execute_request(message),
        ),
    }
}

/// Turns `message` into the request for the service `to`.
pub fn announce(
    to: NotifyTo,
    message: String,
    slack: &SlackConfig,
    discord: &DiscordConfig,
) -> (out: Announcement)
    ensures
        out@ == announcement(to, message@, *slack, *discord),
{
    match to {
        NotifyTo::Slack => {
            let client = new_slack_client(slack.clone());
            Announcement::Slack(client.post_message(message))
        },
        NotifyTo::Discord => {
            let client = new_webhook_client(discord.webhook_url.clone());
            Announcement::Discord(client.execute(message))
        },
    }
}

/// What came of an announcement: Slack's answer, or for Discord, whose
/// webhook answers without a body, only whether the request went through.
#[derive(Debug, PartialEq, Eq)]
pub enum Delivery {
    Slack(Result<PostMessageResp, Error>),
    Discord(Result<(), Error>),
}

/// The model of a [`NotifyError`].
pub enum NotifyErrorView {
    Refused(Seq<char>),
    Failed(ErrorView),
}

/// Why an announcement did not arrive.
#[derive(Debug, PartialEq, Eq)]
pub enum NotifyError {
    /// The chat service refused the message; the text is its reason.
    Refused(String),
    /// The message could not be sent, or the answer could not be read.
    Failed(Error),
}

impl View for NotifyError {
    type V = NotifyErrorView;

    open spec fn view(&self) -> NotifyErrorView {
        match self {
            NotifyError::Refused(reason) => NotifyErrorView::Refused(reason@),
            NotifyError::Failed(e) => NotifyErrorView::Failed(e@),
        }
    }
}

impl NotifyErrorView {
    /// The failure in words.
    pub open spec fn text(self) -> Seq<char> {
        match self {
            NotifyErrorView::Refused(reason) => reason,
            NotifyErrorView::Failed(e) => e.text(),
        }
    }
}

impl NotifyError {
    /// The failure in words.
    pub fn to_string(&self) -> (text: String)
        ensures
            text@ == self@.text(),
    {
        match self {
            NotifyError::Refused(reason) => reason.clone(),
            NotifyError::Failed(e) => e.to_string(),
        }
    }
}

/// Whether an announcement arrived: on Slack where Slack's answer is an
/// acceptance, on Discord where the request went through.
pub open spec fn delivery_outcome(delivery: Delivery) -> Result<(), NotifyErrorView> {
    match delivery {
        Delivery::Slack(Ok(PostMessageResp::Posted(_))) => Ok(()),
        Delivery::Slack(Ok(PostMessageResp::Failed(refusal))) => Err(
            NotifyErrorView::Refused(refusal.error@),
        ),
        Delivery::Slack(Err(e)) => Err(NotifyErrorView::Failed(e@)),
        Delivery::Discord(Ok(_)) => Ok(()),
        Delivery::Discord(Err(e)) => Err(NotifyErrorView::Failed(e@)),
    }
}

/// Brings the two services' answers to one form.
pub fn delivery_result(delivery: Delivery) -> (outcome: Result<(), NotifyError>)
    ensures
        match outcome {
            Ok(_) => delivery_outcome(delivery) == Ok::<(), NotifyErrorView>(()),
            Err(e) => delivery_outcome(delivery) == Err::<(), NotifyErrorView>(e@),
        },
{
    match delivery {
        Delivery::Slack(Ok(PostMessageResp::Posted(_))) => Ok(()),
        Delivery::Slack(Ok(PostMessageResp::Failed(refusal))) => Err(
            NotifyError::Refused(refusal.error),
        ),
        Delivery::Slack(Err(e)) => Err(NotifyError::Failed(e)),
        Delivery::Discord(Ok(_)) => Ok(()),
        Delivery::Discord(Err(e)) => Err(NotifyError::Failed(e)),
    }
}

/// Where the start of a season stands: what the engine waits for.
#[derive(Debug, PartialEq, Eq)]
pub enum StartStage {
    /// The request's body.
    Body { ticks: u128 },
    /// The lottery's state.
    Config { ticks: u128, name: String },
    /// The end of the old data namespace.
    Delete { ticks: u128, name: String, current: LotteryConfig },
    /// The new data namespace.
    Create { ticks: u128, name: String, current: LotteryConfig },
    /// The store's word that the new state is written.
    Write { name: String, season: u64 },
    /// The fate of the announcement.
    Notify,
}

/// Where the end of a season stands: what the engine waits for.
#[derive(Debug, PartialEq, Eq)]
pub enum EndStage {
    /// The request's body.
    Body,
    /// The lottery's state.
    Config { name: String },
    /// The store's word that the new state is written.
    Write { name: String, season: u64 },
    /// The fate of the announcement.
    Notify,
}

/// The maintainer to call where an operation that announces to `to` fails.
pub open spec fn maintainer_of(to: NotifyTo, config: BotConfig) -> Seq<char> {
    match to {
        NotifyTo::Slack => config.slack.maintainer@,
        NotifyTo::Discord => config.discord.maintainer@,
    }
}

/// The maintainer to call where an operation that announces to `to` fails.
pub fn maintainer<'a>(to: NotifyTo, bot_config: &'a BotConfig) -> (name: &'a str)
    ensures
        name@ == maintainer_of(to, *bot_config),
{
    match to {
        NotifyTo::Slack => bot_config.slack.maintainer.as_str(),
        NotifyTo::Discord => bot_config.discord.maintainer.as_str(),
    }
}

/// The text that announces what the season `season` of `name` does.
pub open spec fn season_message(name: Seq<char>, season: u64, what: Seq<char>) -> Seq<char> {
    name + " season "@ + decimal(season as nat) + what
}

/// The text that announces what the season `season` of `name` does.
pub fn season_text(name: &str, season: u64, what: &str) -> (text: String)
    ensures
        text@ == season_message(name@, season, what@),
{
    let mut text = join(name, " season ");
    push_decimal(&mut text, season as u128);
    text.append(what);
    text
}

/// What making a namespace gave: its description, or the failure, be it
/// the host's or the store's.
pub open spec fn created(
    reply: Result<ExpectResultResponse<CreateNamespaceResult>, Error>,
) -> Result<CreateNamespaceResult, ErrorView> {
    match reply {
        Err(e) => Err(e@),
        Ok(answer) => result_outcome(answer.result, answer.success, answer.errors@),
    }
}

/// Reads what came back when a namespace was made.
pub fn creation(
    reply: Result<ExpectResultResponse<CreateNamespaceResult>, Error>,
) -> (outcome: Result<CreateNamespaceResult, Error>)
    ensures
        match outcome {
            Ok(made) => created(reply) == Ok::<CreateNamespaceResult, ErrorView>(made),
            Err(e) => created(reply) == Err::<CreateNamespaceResult, ErrorView>(e@),
        },
{
    match reply {
        Err(e) => Err(e),
        Ok(answer) => answer.result(),
    }
}

/// The state `config` with its guesses kept in the namespace `namespace`.
pub open spec fn rotated(config: LotteryConfigView, namespace: Seq<char>) -> LotteryConfigView {
    LotteryConfigView { data_kv_namespace: namespace, ..config }
}

/// How the start of a season moves on. The body names the calendar; the
/// state is read, and where the store holds none the configured one counts;
/// the old data namespace goes, and one that is already gone is as good as
/// one that goes; a new one is made, so that no guess outlives its season;
/// the state of the new season, with a fresh jackpot and the new namespace,
/// is written; then the season is announced. The first failure ends the
/// exchange. Nothing is changed before the body and the state have been
/// read, and a failure of the store after that calls the maintainer, since
/// it may leave the start of the season half done.
pub open spec fn start_step(
    stage: StartStage,
    event: Event,
    config: BotConfig,
    to: NotifyTo,
    step: Step,
) -> bool {
    match (stage, event) {
        (StartStage::Body { ticks }, Event::Body(Ok(Inbound::Calendar(body)))) => {
            &&& step.state == State::Start(StartStage::Config { ticks, name: body.calendar_name })
            &&& step.action@ == ActionView::ReadConfig(
                config_store(config).read_request("lotteryConfig"@),
            )
        },
        (StartStage::Body { .. }, Event::Body(Err(why))) => fails(
            step,
            "Failed to deserialize into CalendarStartEvent, err: "@ + why@,
        ),
        (StartStage::Config { ticks, name }, Event::ConfigRead(reply)) => match loaded(reply) {
            Err(e) => fails(step, "Failed to read emoji lottery config, err: "@ + e.text()),
            Ok(stored) => {
                let current = current_config(stored, config);
                if current.season == u64::MAX {
                    fails(step, "The season counter is exhausted"@)
                } else {
                    &&& step.state == State::Start(StartStage::Delete { ticks, name, current })
                    &&& step.action@ == ActionView::DeleteNamespace(
                        config_store(config).delete_request(current.data_kv_namespace@),
                    )
                }
            },
        },
        (StartStage::Delete { ticks, name, current }, Event::Answered(reply)) => match undeleted(
            reply,
        ) {
            Some(e) => fails(
                step,
                mention("Failed to delete namespace, err: "@ + e.text(), maintainer_of(to, config)),
            ),
            None => {
                &&& step.state == State::Start(StartStage::Create { ticks, name, current })
                &&& step.action@ == ActionView::CreateNamespace(
                    config_store(config).create_request("lottery-bot-data-test"@),
                )
            },
        },
        (StartStage::Create { ticks, name, current }, Event::Created(reply)) => match created(
            reply,
        ) {
            Err(e) => fails(
                step,
                mention("Failed to create namespace, err: "@ + e.text(), maintainer_of(to, config)),
            ),
            Ok(made) => {
                if current.season == u64::MAX {
                    fails(step, "The season counter is exhausted"@)
                } else {
                    &&& step.state == State::Start(
                        StartStage::Write { name, season: (current.season + 1) as u64 },
                    )
                    &&& exists|jackpot: char|
                        is_lottery_emoji(jackpot) && step.action@ == ActionView::WriteConfig(
                            config_store(config).write_request(
                                "lotteryConfig"@,
                                rotated(current@.commence(jackpot), made.id@),
                            ),
                        )
                }
            },
        },
        (StartStage::Write { name, season }, Event::Answered(reply)) => match refused(reply) {
            Some(e) => fails(
                step,
                mention(
                    "Failed to write new emoji lottery config, err: "@ + e.text(),
                    maintainer_of(to, config),
                ),
            ),
            None => {
                &&& step.state == State::Start(StartStage::Notify)
                &&& step.action@ == ActionView::Announce(
                    announcement(
                        to,
                        season_message(name@, season, " commence"@),
                        config.slack,
                        config.discord,
                    ),
                )
            },
        },
        (StartStage::Notify, Event::Delivered(delivery)) => delivered(delivery, to, config, step),
        _ => fails(step, "unexpected event"@),
    }
}

/// How the exchange ends over what came of the announcement. One that
/// arrived is acknowledged. One that the chat service refused is answered
/// with the service's reason as it stands. One that could not be sent, or
/// whose answer could not be read, is answered with that failure and a call
/// for the maintainer. The state that was written stays written, and
/// nothing more is asked for.
pub open spec fn delivered(
    delivery: Delivery,
    to: NotifyTo,
    config: BotConfig,
    step: Step,
) -> bool {
    match delivery_outcome(delivery) {
        Ok(_) => responds(step, Ok(ReplyView::Done)),
        Err(NotifyErrorView::Refused(reason)) => fails(step, reason),
        Err(NotifyErrorView::Failed(e)) => fails(
            step,
            mention("Failed to notify, err: "@ + e.text(), maintainer_of(to, config)),
        ),
    }
}

/// Ends the exchange over what came of the announcement.
fn after_delivery(delivery: Delivery, bot_config: &BotConfig, to: NotifyTo) -> (step: Step)
    ensures
        delivered(delivery, to, *bot_config, step),
{
    match delivery_result(delivery) {
        Ok(_) => done(),
        Err(NotifyError::Refused(reason)) => fail(reason),
        Err(NotifyError::Failed(e)) => fail_loudly(
            "Failed to notify, err: ",
            e.to_string().as_str(),
            maintainer(to, bot_config),
        ),
    }
}

/// Moves the start of a season on by one event.
pub fn calendar_start(
    stage: StartStage,
    event: Event,
    bot_config: &BotConfig,
    to: NotifyTo,
) -> (step: Step)
    ensures
        start_step(stage, event, *bot_config, to, step),
{
    match (stage, event) {
        (StartStage::Body { ticks }, Event::Body(Ok(Inbound::Calendar(body)))) => {
            let client = config_client(bot_config);
            let key = bot_config.emoji.kv_key();
            Step {
                state: State::Start(StartStage::Config { ticks, name: body.calendar_name }),
                action: Action::ReadConfig(client.read(key.as_str())),
            }
        },
        (StartStage::Body { .. }, Event::Body(Err(why))) => fail(
            join("Failed to deserialize into CalendarStartEvent, err: ", why.as_str()),
        ),
        (StartStage::Config { ticks, name }, Event::ConfigRead(reply)) => match load(reply) {
            Err(e) => fail(
                join("Failed to read emoji lottery config, err: ", e.to_string().as_str()),
            ),
            Ok(stored) => {
                let current = current_of(stored, bot_config);
                if current.season == u64::MAX {
                    fail(String::from_str("The season counter is exhausted"))
                } else {
                    let client = config_client(bot_config);
                    let request = client.delete_namespace(current.data_kv_namespace.clone());
                    Step {
                        state: State::Start(StartStage::Delete { ticks, name, current }),
                        action: Action::DeleteNamespace(request),
                    }
                }
            },
        },
        (StartStage::Delete { ticks, name, current }, Event::Answered(reply)) => {
            match settle_deletion(reply) {
                Some(e) => fail_loudly(
                    "Failed to delete namespace, err: ",
                    e.to_string().as_str(),
                    maintainer(to, bot_config),
                ),
                None => {
                    let client = config_client(bot_config);
                    let request = client.create_namespace(
                        String::from_str("lottery-bot-data-test"),
                    );
                    Step {
                        state: State::Start(StartStage::Create { ticks, name, current }),
                        action: Action::CreateNamespace(request),
                    }
                },
            }
        },
        (StartStage::Create { ticks, name, current }, Event::Created(reply)) => match creation(
            reply,
        ) {
            Err(e) => fail_loudly(
                "Failed to create namespace, err: ",
                e.to_string().as_str(),
                maintainer(to, bot_config),
            ),
            Ok(made) => {
                if current.season == u64::MAX {
                    fail(String::from_str("The season counter is exhausted"))
                } else {
                    let mut new_config = current.commence(ticks);
                    let ghost drawn = new_config@;
                    new_config.data_kv_namespace = made.id;
                    assert(new_config@ == rotated(drawn, made.id@));
                    let season = new_config.season;
                    let client = config_client(bot_config);
                    let key = bot_config.emoji.kv_key();
                    let request = client.write(key.as_str(), new_config);
                    Step {
                        state: State::Start(StartStage::Write { name, season }),
                        action: Action::WriteConfig(request),
                    }
                }
            },
        },
        (StartStage::Write { name, season }, Event::Answered(reply)) => match settle(reply) {
            Some(e) => fail_loudly(
                "Failed to write new emoji lottery config, err: ",
                e.to_string().as_str(),
                maintainer(to, bot_config),
            ),
            None => {
                let message = season_text(name.as_str(), season, " commence");
                Step {
                    state: State::Start(StartStage::Notify),
                    action: Action::Announce(
                        announce(to, message, &bot_config.slack, &bot_config.discord),
                    ),
                }
            },
        },
        (StartStage::Notify, Event::Delivered(delivery)) => after_delivery(
            delivery,
            bot_config,
            to,
        ),
        _ => fail(String::from_str("unexpected event")),
    }
}

/// How the end of a season moves on. The body names the calendar; the
/// state is read, and where the store holds none the configured one counts;
/// the state with the season ended is written; then the end of the season,
/// whose number stays, is announced. The first failure ends the exchange.
pub open spec fn end_step(
    stage: EndStage,
    event: Event,
    config: BotConfig,
    to: NotifyTo,
    step: Step,
) -> bool {
    match (stage, event) {
        (EndStage::Body, Event::Body(Ok(Inbound::Calendar(body)))) => {
            &&& step.state == State::End(EndStage::Config { name: body.calendar_name })
            &&& step.action@ == ActionView::ReadConfig(
                config_store(config).read_request("lotteryConfig"@),
            )
        },
        (EndStage::Body, Event::Body(Err(why))) => fails(
            step,
            "Failed to deserialize into CalendarStartEvent, err: "@ + why@,
        ),
        (EndStage::Config { name }, Event::ConfigRead(reply)) => match loaded(reply) {
            Err(e) => fails(step, "Failed to read emoji lottery config, err: "@ + e.text()),
            Ok(stored) => {
                let current = current_config(stored, config);
                &&& step.state == State::End(EndStage::Write { name, season: current.season })
                &&& step.action@ == ActionView::WriteConfig(
                    config_store(config).write_request("lotteryConfig"@, current@.end()),
                )
            },
        },
        (EndStage::Write { name, season }, Event::Answered(reply)) => match refused(reply) {
            Some(e) => fails(
                step,
                mention(
                    "Failed to write new emoji lottery config, err: "@ + e.text(),
                    maintainer_of(to, config),
                ),
            ),
            None => {
                &&& step.state == State::End(EndStage::Notify)
                &&& step.action@ == ActionView::Announce(
                    announcement(
                        to,
                        season_message(name@, season, " ends"@),
                        config.slack,
                        config.discord,
                    ),
                )
            },
        },
        (EndStage::Notify, Event::Delivered(delivery)) => delivered(delivery, to, config, step),
        _ => fails(step, "unexpected event"@),
    }
}

/// Moves the end of a season on by one event.
pub fn calendar_end(
    stage: EndStage,
    event: Event,
    bot_config: &BotConfig,
    to: NotifyTo,
) -> (step: Step)
    ensures
        end_step(stage, event, *bot_config, to, step),
{
    match (stage, event) {
        (EndStage::Body, Event::Body(Ok(Inbound::Calendar(body)))) => {
            let client = config_client(bot_config);
            let key = bot_config.emoji.kv_key();
            Step {
                state: State::End(EndStage::Config { name: body.calendar_name }),
                action: Action::ReadConfig(client.read(key.as_str())),
            }
        },
        (EndStage::Body, Event::Body(Err(why))) => fail(
            join("Failed to deserialize into CalendarStartEvent, err: ", why.as_str()),
        ),
        (EndStage::Config { name }, Event::ConfigRead(reply)) => match load(reply) {
            Err(e) => fail(
                join("Failed to read emoji lottery config, err: ", e.to_string().as_str()),
            ),
            Ok(stored) => {
                let current = current_of(stored, bot_config);
                let new_config = current.end();
                let client = config_client(bot_config);
                let key = bot_config.emoji.kv_key();
                let request = client.write(key.as_str(), new_config);
                Step {
                    state: State::End(EndStage::Write { name, season: current.season }),
                    action: Action::WriteConfig(request),
                }
            },
        },
        (EndStage::Write { name, season }, Event::Answered(reply)) => match settle(reply) {
            Some(e) => fail_loudly(
                "Failed to write new emoji lottery config, err: ",
                e.to_string().as_str(),
                maintainer(to, bot_config),
            ),
            None => {
                let message = season_text(name.as_str(), season, " ends");
                Step {
                    state: State::End(EndStage::Notify),
                    action: Action::Announce(
                        announce(to, message, &bot_config.slack, &bot_config.discord),
                    ),
                }
            },
        },
        (EndStage::Notify, Event::Delivered(delivery)) => after_delivery(delivery, bot_config, to),
        _ => fail(String::from_str("unexpected event")),
    }
}

/// A namespace that is not there does not stop the start of a season: where
/// the store answers the deletion with its not-found code, the engine goes
/// on to make the new namespace, exactly as after a deletion that went
/// through.
pub proof fn lemma_missing_namespace_counts_as_deleted(
    ticks: u128,
    name: String,
    current: LotteryConfig,
    answer: NoResultResponse,
    config: BotConfig,
    to: NotifyTo,
    step: Step,
)
    requires
        (answer.success && answer.errors@.len() == 0) || (answer.errors@.len() > 0
            && answer.errors@[0].code == NAMESPACE_NOT_FOUND),
        start_step(
            StartStage::Delete { ticks, name, current },
            Event::Answered(Ok(answer)),
            config,
            to,
            step,
        ),
    ensures
        step.state == State::Start(StartStage::Create { ticks, name, current }),
        step.action@ == ActionView::CreateNamespace(
            config_store(config).create_request("lottery-bot-data-test"@),
        ),
{
}

} // verus!
