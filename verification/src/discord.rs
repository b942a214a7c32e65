//! Discord: the webhook that announces, and the two operations that
//! Discord's users reach: guessing and looking at the latest guess.

use crate::emoji::evaluate;
use crate::emoji::evaluate_submission;
use crate::emoji::LotteryConfig;
use crate::emoji::SubmissionOutcome;
use crate::engine::config_client;
use crate::engine::config_store;
use crate::engine::current_config;
use crate::engine::current_of;
use crate::engine::data_client;
use crate::engine::data_store;
use crate::engine::fail;
use crate::engine::fail_loudly;
use crate::engine::fails;
use crate::engine::join;
use crate::engine::load;
use crate::engine::loaded;
use crate::engine::mention;
use crate::engine::refused;
use crate::engine::say;
use crate::engine::says;
use crate::engine::settle;
use crate::engine::Action;
use crate::engine::ActionView;
use crate::engine::BotConfig;
use crate::engine::Event;
use crate::engine::Inbound;
use crate::engine::State;
use crate::engine::Step;
use crate::http::json_header;
use crate::http::json_headers;
use crate::http::lemma_headers_well_formed;
use crate::http::Method;
use crate::http::Request;
use crate::http::RequestView;
use crate::kv::Guess;
use crate::kv::GuessView;
use crate::text::push_signed_decimal;
use crate::text::signed_decimal;
use crate::time::format_naive;
use crate::time::naive_text;
use crate::time::utc_text;
use vstd::prelude::*;
use vstd::string::*;

verus! {

/// How the bot talks to Discord.
#[derive(Debug, PartialEq, Eq)]
pub struct DiscordConfig {
    /// The secret shared with the gateway that forwards Discord's requests.
    pub gateway_token: String,
    pub webhook_url: String,
    pub maintainer: String,
}

/// A guess as it arrives.
#[derive(Debug, PartialEq, Eq)]
pub struct Submission {
    pub submission: String,
    pub ts: i64,
}

/// What a webhook is sent.
#[derive(Debug, PartialEq, Eq)]
pub struct WebhookBody {
    pub content: String,
}

impl View for WebhookBody {
    type V = Seq<char>;

    open spec fn view(&self) -> Seq<char> {
        self.content@
    }
}

/// A client of one Discord webhook.
#[derive(Debug, PartialEq, Eq)]
pub struct WebhookClient {
    pub url: String,
}

/// A client of the webhook at `url`.
pub fn new_webhook_client(url: String) -> (client: WebhookClient)
    ensures
        client.url == url,
{
    return WebhookClient { url };
}

impl WebhookClient {
    /// The request that has the webhook say `message`.
    pub open spec fn execute_request(self, message: Seq<char>) -> RequestView<Seq<char>> {
        RequestView {
            url: self.url@,
            method: Method::POST,
            headers: seq![json_header()],
            body: message,
        }
    }

    /// The request that has the webhook say `message`. The webhook answers
    /// without a body: that the request went through is all there is to read.
    pub fn execute(&self, message: String) -> (request: Request<WebhookBody>)
        ensures
            request@ == self.execute_request(message@),
            request@.well_formed(),
    {
        proof {
            lemma_headers_well_formed(self.execute_request(message@), Seq::empty());
        }
        Request {
            url: self.url.clone(),
            method: Method::POST,
            headers: json_headers(),
            body: WebhookBody { content: message },
        }
    }
}

/// Where the judging of a guess stands: what the engine waits for.
#[derive(Debug, PartialEq, Eq)]
pub enum SubmitStage {
    /// The request's body.
    Body { submitter: String },
    /// The lottery's state.
    Config { submitter: String, incoming: Guess },
    /// The submitter's latest guess.
    Last { submitter: String, incoming: Guess, config: LotteryConfig },
    /// The store's word that the guess is written.
    Write { retry_in_hrs: i64 },
}

/// Where the look at a latest guess stands: what the engine waits for.
#[derive(Debug, PartialEq, Eq)]
pub enum CheckStage {
    /// The lottery's state.
    Config { submitter: String },
    /// The submitter's latest guess.
    Last,
}

/// The retry time in words: as a date and time where the calendar holds
/// it, else as the number of its epoch second.
pub open spec fn retry_text(retry_after: i128) -> Seq<char> {
    if i64::MIN <= retry_after <= i64::MAX && naive_text(retry_after as i64) is Some {
        naive_text(retry_after as i64).unwrap()
    } else {
        "epoch second "@ + signed_decimal(retry_after as int)
    }
}

/// The retry time in words.
pub fn retry_string(retry_after: i128) -> (text: String)
    ensures
        text@ == retry_text(retry_after),
{
    if i64::MIN as i128 <= retry_after && retry_after <= i64::MAX as i128 {
        match format_naive(retry_after as i64) {
            Some(text) => {
                return text;
            },
            None => {},
        }
    }
    let mut text = String::from_str("epoch second ");
    push_signed_decimal(&mut text, retry_after);
    text
}

/// What the submitter is told once the store has taken the guess.
pub open spec fn accepted_text(retry_in_hrs: i64) -> Seq<char> {
    "Not quite what I had in mind, try again in "@ + signed_decimal(retry_in_hrs as int) + " hrs"@
}

/// What the submitter is told about a guess that is not written.
pub open spec fn outcome_text(outcome: SubmissionOutcome) -> Seq<char>
    recommends
        outcome != SubmissionOutcome::Accepted,
{
    match outcome {
        SubmissionOutcome::Rejected(_) => "No active lottery yet, wait for the next announcement!"@,
        SubmissionOutcome::Jackpot => "Bingo!"@,
        SubmissionOutcome::Throttled { retry_after } => "please submit after "@ + retry_text(
            retry_after,
        ),
        SubmissionOutcome::Accepted => Seq::empty(),
    }
}

/// The model of a guess that may be absent.
pub open spec fn last_view(guess: Option<Guess>) -> Option<GuessView> {
    match guess {
        Some(g) => Some(g@),
        None => None,
    }
}

/// How the judging of a guess moves on. The body holds the guess; the
/// state is read, then the submitter's latest guess, from the namespace of
/// the running season; the rule decides. Only an accepted guess is written,
/// in place of the latest one; every other outcome answers at once. A read
/// that fails ends the exchange before anything is decided.
pub open spec fn submit_step(
    stage: SubmitStage,
    event: Event,
    config: BotConfig,
    step: Step,
) -> bool {
    match (stage, event) {
        (SubmitStage::Body { submitter }, Event::Body(Ok(Inbound::Submission(body)))) => {
            &&& step.state == State::Submit(
                SubmitStage::Config {
                    submitter,
                    incoming: Guess { value: body.submission, created_at: body.ts },
                },
            )
            &&& step.action@ == ActionView::ReadConfig(
                config_store(config).read_request("lotteryConfig"@),
            )
        },
        (SubmitStage::Body { .. }, Event::Body(Err(why))) => fails(
            step,
            "Failed to deserialize into Submission, err: "@ + why@,
        ),
        (SubmitStage::Config { submitter, incoming }, Event::ConfigRead(reply)) => match loaded(
            reply,
        ) {
            Err(e) => fails(step, "Failed to read emoji lottery config, err: "@ + e.text()),
            Ok(stored) => {
                let current = current_config(stored, config);
                &&& step.state == State::Submit(
                    SubmitStage::Last { submitter, incoming, config: current },
                )
                &&& step.action@ == ActionView::ReadGuess(
                    data_store(config, current).read_request(submitter@),
                )
            },
        },
        (SubmitStage::Last { submitter, incoming, config: current }, Event::GuessRead(reply)) => {
            match loaded(reply) {
                Err(e) => fails(step, "Can't retrieve last try, err: "@ + e.text()),
                Ok(last) => {
                    let outcome = evaluate(current@, last_view(last), incoming@);
                    if outcome == SubmissionOutcome::Accepted {
                        &&& step.state == State::Submit(
                            SubmitStage::Write { retry_in_hrs: current.retry_in_hrs },
                        )
                        &&& step.action@ == ActionView::WriteGuess(
                            data_store(config, current).write_request(submitter@, incoming@),
                        )
                    } else {
                        says(step, outcome_text(outcome))
                    }
                },
            }
        },
        (SubmitStage::Write { retry_in_hrs }, Event::Answered(reply)) => match refused(reply) {
            Some(e) => fails(
                step,
                mention("Failed to submit, err: "@ + e.text(), config.discord.maintainer@),
            ),
            None => says(step, accepted_text(retry_in_hrs)),
        },
        _ => fails(step, "unexpected event"@),
    }
}

/// Moves the judging of a guess on by one event.
pub fn submit(stage: SubmitStage, event: Event, bot_config: &BotConfig) -> (step: Step)
    ensures
        submit_step(stage, event, *bot_config, step),
{
    match (stage, event) {
        (SubmitStage::Body { submitter }, Event::Body(Ok(Inbound::Submission(body)))) => {
            let client = config_client(bot_config);
            let key = bot_config.emoji.kv_key();
            let incoming = Guess { value: body.submission, created_at: body.ts };
            Step {
                state: State::Submit(SubmitStage::Config { submitter, incoming }),
                action: Action::ReadConfig(client.read(key.as_str())),
            }
        },
        (SubmitStage::Body { .. }, Event::Body(Err(why))) => fail(
            join("Failed to deserialize into Submission, err: ", why.as_str()),
        ),
        (SubmitStage::Config { submitter, incoming }, Event::ConfigRead(reply)) => match load(
            reply,
        ) {
            Err(e) => fail(
                join("Failed to read emoji lottery config, err: ", e.to_string().as_str()),
            ),
            Ok(stored) => {
                let current = current_of(stored, bot_config);
                let client = data_client(bot_config, &current);
                let request = client.read(submitter.as_str());
                Step {
                    state: State::Submit(
                        SubmitStage::Last { submitter, incoming, config: current },
                    ),
                    action: Action::ReadGuess(request),
                }
            },
        },
        (SubmitStage::Last { submitter, incoming, config: current }, Event::GuessRead(reply)) => {
            match load(reply) {
                Err(e) => fail(join("Can't retrieve last try, err: ", e.to_string().as_str())),
                Ok(last) => {
                    let outcome = match &last {
                        Some(guess) => evaluate_submission(&current, Some(guess), &incoming),
                        None => evaluate_submission(&current, None, &incoming),
                    };
                    match outcome {
                        SubmissionOutcome::Rejected(_) => say(
                            String::from_str(
                                "No active lottery yet, wait for the next announcement!",
                            ),
                        ),
                        SubmissionOutcome::Jackpot => say(String::from_str("Bingo!")),
                        SubmissionOutcome::Throttled { retry_after } => say(
                            join("please submit after ", retry_string(retry_after).as_str()),
                        ),
                        SubmissionOutcome::Accepted => {
                            let client = data_client(bot_config, &current);
                            let request = client.write(submitter.as_str(), incoming);
                            Step {
                                state: State::Submit(
                                    SubmitStage::Write { retry_in_hrs: current.retry_in_hrs },
                                ),
                                action: Action::WriteGuess(request),
                            }
                        },
                    }
                },
            }
        },
        (SubmitStage::Write { retry_in_hrs }, Event::Answered(reply)) => match settle(reply) {
            Some(e) => fail_loudly(
                "Failed to submit, err: ",
                e.to_string().as_str(),
                bot_config.discord.maintainer.as_str(),
            ),
            None => {
                let mut text = String::from_str("Not quite what I had in mind, try again in ");
                push_signed_decimal(&mut text, retry_in_hrs as i128);
                text.append(" hrs");
                say(text)
            },
        },
        _ => fail(String::from_str("unexpected event")),
    }
}

/// How the look at a latest guess moves on. The state is read, for the
/// namespace of the running season, then the submitter's latest guess. A
/// submitter without one is told so, which is no failure.
pub open spec fn check_step(
    stage: CheckStage,
    event: Event,
    config: BotConfig,
    step: Step,
) -> bool {
    match (stage, event) {
        (CheckStage::Config { submitter }, Event::ConfigRead(reply)) => match loaded(reply) {
            Err(e) => fails(step, "Failed to read emoji lottery config, err: "@ + e.text()),
            Ok(stored) => {
                &&& step.state == State::Check(CheckStage::Last)
                &&& step.action@ == ActionView::ReadGuess(
                    data_store(config, current_config(stored, config)).read_request(submitter@),
                )
            },
        },
        (CheckStage::Last, Event::GuessRead(reply)) => match loaded(reply) {
            Err(e) => fails(step, "Failed to check last submission, err: "@ + e.text()),
            Ok(None) => says(step, "You haven't submitted anything yet!"@),
            Ok(Some(guess)) => match utc_text(guess.created_at) {
                Some(when) => says(step, guess@.text(when)),
                None => fails(step, "The last submission was made at a time no calendar holds"@),
            },
        },
        _ => fails(step, "unexpected event"@),
    }
}

/// Moves the look at a latest guess on by one event.
#[allow(non_snake_case)]
pub fn checkLastSubmission(stage: CheckStage, event: Event, bot_config: &BotConfig) -> (step: Step)
    ensures
        check_step(stage, event, *bot_config, step),
{
    match (stage, event) {
        (CheckStage::Config { submitter }, Event::ConfigRead(reply)) => match load(reply) {
            Err(e) => fail(
                join("Failed to read emoji lottery config, err: ", e.to_string().as_str()),
            ),
            Ok(stored) => {
                let current = current_of(stored, bot_config);
                let client = data_client(bot_config, &current);
                Step {
                    state: State::Check(CheckStage::Last),
                    action: Action::ReadGuess(client.read(submitter.as_str())),
                }
            },
        },
        (CheckStage::Last, Event::GuessRead(reply)) => match load(reply) {
            Err(e) => fail(
                join("Failed to check last submission, err: ", e.to_string().as_str()),
            ),
            Ok(None) => say(String::from_str("You haven't submitted anything yet!")),
            Ok(Some(guess)) => match guess.to_string() {
                Some(text) => say(text),
                None => fail(
                    String::from_str("The last submission was made at a time no calendar holds"),
                ),
            },
        },
        _ => fail(String::from_str("unexpected event")),
    }
}

} // verus!
