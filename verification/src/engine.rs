//! The engine: one request handled as an exchange of events and actions
//! with the host, and what holds of every such exchange.
//!
//! Within one exchange the reads come before the decision, the decision
//! before the writes, and the writes before the announcement. Between two
//! exchanges nothing is ordered: the store offers no conditional write, so
//! two requests that read the same state may both write, and the last
//! writer wins.

use crate::calendar;
use crate::calendar::calendar_end;
use crate::calendar::calendar_start;
use crate::calendar::created;
use crate::calendar::end_step;
use crate::calendar::start_step;
use crate::calendar::Announcement;
use crate::calendar::AnnouncementView;
use crate::calendar::CalendarStartEvent;
use crate::calendar::Delivery;
use crate::calendar::EndStage;
use crate::calendar::NotifyTo;
use crate::calendar::StartStage;
use crate::discord::checkLastSubmission;
use crate::discord::check_step;
use crate::discord::last_view;
use crate::discord::submit;
use crate::discord::submit_step;
use crate::discord::CheckStage;
use crate::discord::DiscordConfig;
use crate::discord::Submission;
use crate::discord::SubmitStage;
use crate::emoji::evaluate;
use crate::emoji::LotteryConfig;
use crate::emoji::LotteryConfigView;
use crate::emoji::SubmissionOutcome;
use crate::error::Error;
use crate::error::ErrorView;
use crate::http::Request;
use crate::http::RequestView;
use crate::kv::delete_result;
use crate::kv::deletion_failure;
use crate::kv::envelope_failure;
use crate::kv::read_outcome;
use crate::kv::read_result;
use crate::kv::CreateNamespaceBody;
use crate::kv::CreateNamespaceResult;
use crate::kv::ExpectResultResponse;
use crate::kv::Guess;
use crate::kv::GuessView;
use crate::kv::KVClient;
use crate::kv::KVConfig;
use crate::kv::NoResultResponse;
use crate::kv::ReadReply;
use crate::route::route_of;
use crate::route::url_path;
use crate::route::Route;
use crate::route::RouteView;
use crate::slack::MessageEvent;
use crate::slack::SlackConfig;
use crate::text::debug_string;
use crate::text::debug_text;
use vstd::prelude::*;
use vstd::string::*;

verus! {

/// All that the bot is configured with: the three services, and the state
/// that the lottery is in while the store holds none.
#[derive(Debug, PartialEq, Eq)]
pub struct BotConfig {
    pub discord: DiscordConfig,
    pub kv: KVConfig,
    pub slack: SlackConfig,
    pub emoji: LotteryConfig,
}

/// The model of a [`Reply`].
pub enum ReplyView {
    Done,
    Text(Seq<char>),
}

/// What the caller of a request gets where the request went well.
#[derive(Debug, PartialEq, Eq)]
pub enum Reply {
    /// The bare acknowledgement.
    Done,
    /// A message for the caller to read.
    Text(String),
}

impl View for Reply {
    type V = ReplyView;

    open spec fn view(&self) -> ReplyView {
        match self {
            Reply::Done => ReplyView::Done,
            Reply::Text(text) => ReplyView::Text(text@),
        }
    }
}

/// The kinds of body a request can carry.
#[derive(Clone, Copy, Debug, PartialEq, Eq, Structural)]
pub enum BodyKind {
    Calendar,
    Submission,
    Message,
}

/// The body of a request, decoded.
#[derive(Debug, PartialEq, Eq)]
pub enum Inbound {
    Calendar(CalendarStartEvent),
    Submission(Submission),
    Message(MessageEvent),
}

/// What the host reports to the engine.
#[derive(Debug, PartialEq, Eq)]
pub enum Event {
    /// A request arrived for the address `url`, while the clock read `ticks`.
    Arrived { url: String, ticks: u128 },
    /// The request's body, or why it could not be decoded.
    Body(Result<Inbound, String>),
    /// What came back when the lottery's state was read.
    ConfigRead(Result<ReadReply<LotteryConfig>, Error>),
    /// What came back when a submitter's latest guess was read.
    GuessRead(Result<ReadReply<Guess>, Error>),
    /// What came back when a value was written or a namespace deleted.
    Answered(Result<NoResultResponse, Error>),
    /// What came back when a namespace was made.
    Created(Result<ExpectResultResponse<CreateNamespaceResult>, Error>),
    /// What came of an announcement.
    Delivered(Delivery),
}

/// The model of an [`Action`].
pub enum ActionView {
    ReadBody(BodyKind),
    ReadConfig(RequestView<()>),
    ReadGuess(RequestView<()>),
    DeleteNamespace(RequestView<()>),
    CreateNamespace(RequestView<Seq<char>>),
    WriteConfig(RequestView<LotteryConfigView>),
    WriteGuess(RequestView<GuessView>),
    Announce(AnnouncementView),
    Respond(Result<ReplyView, Seq<char>>),
}

/// What the engine asks the host to do next. Each request is answered by
/// the event that its variant names; `Respond` ends the exchange.
#[derive(Debug, PartialEq, Eq)]
pub enum Action {
    /// Decode the request's body; answered by [`Event::Body`].
    ReadBody(BodyKind),
    /// Read the lottery's state; answered by [`Event::ConfigRead`].
    ReadConfig(Request<()>),
    /// Read a latest guess; answered by [`Event::GuessRead`].
    ReadGuess(Request<()>),
    /// Delete a namespace; answered by [`Event::Answered`].
    DeleteNamespace(Request<()>),
    /// Make a namespace; answered by [`Event::Created`].
    CreateNamespace(Request<CreateNamespaceBody>),
    /// Write the lottery's state; answered by [`Event::Answered`].
    WriteConfig(Request<LotteryConfig>),
    /// Write a latest guess; answered by [`Event::Answered`].
    WriteGuess(Request<Guess>),
    /// Send an announcement; answered by [`Event::Delivered`].
    Announce(Announcement),
    /// Answer the caller: with a reply, or with the text of a failure.
    Respond(Result<Reply, String>),
}

impl View for Action {
    type V = ActionView;

    open spec fn view(&self) -> ActionView {
        match self {
            Action::ReadBody(kind) => ActionView::ReadBody(*kind),
            Action::ReadConfig(request) => ActionView::ReadConfig(request@),
            Action::ReadGuess(request) => ActionView::ReadGuess(request@),
            Action::DeleteNamespace(request) => ActionView::DeleteNamespace(request@),
            Action::CreateNamespace(request) => ActionView::CreateNamespace(request@),
            Action::WriteConfig(request) => ActionView::WriteConfig(request@),
            Action::WriteGuess(request) => ActionView::WriteGuess(request@),
            Action::Announce(out) => ActionView::Announce(out@),
            Action::Respond(Ok(reply)) => ActionView::Respond(Ok(reply@)),
            Action::Respond(Err(text)) => ActionView::Respond(Err(text@)),
        }
    }
}

/// Where the handling of a request stands.
#[derive(Debug, PartialEq, Eq)]
pub enum State {
    /// Nothing has been looked at yet.
    Received,
    /// A season is being started.
    Start(StartStage),
    /// The season is being ended.
    End(EndStage),
    /// A guess is being judged.
    Submit(SubmitStage),
    /// A latest guess is being looked up.
    Check(CheckStage),
    /// A chat event waits for its body.
    Events,
    /// The caller has been answered.
    Responded,
}

/// One move of the engine: the state it is in now, and what it asks for.
#[derive(Debug, PartialEq, Eq)]
pub struct Step {
    pub state: State,
    pub action: Action,
}

/// The step answers the caller with `reply` and ends the exchange.
pub open spec fn responds(step: Step, reply: Result<ReplyView, Seq<char>>) -> bool {
    step.state == State::Responded && step.action@ == ActionView::Respond(reply)
}

/// The step ends the exchange with the failure `text`.
pub open spec fn fails(step: Step, text: Seq<char>) -> bool {
    responds(step, Err(text))
}

/// The step ends the exchange with the message `text`.
pub open spec fn says(step: Step, text: Seq<char>) -> bool {
    responds(step, Ok(ReplyView::Text(text)))
}

/// Ends the exchange with the failure `text`.
pub fn fail(text: String) -> (step: Step)
    ensures
        fails(step, text@),
{
    Step { state: State::Responded, action: Action::Respond(Err(text)) }
}

/// Ends the exchange with the message `text`.
pub fn say(text: String) -> (step: Step)
    ensures
        says(step, text@),
{
    Step { state: State::Responded, action: Action::Respond(Ok(Reply::Text(text))) }
}

/// Ends the exchange with the bare acknowledgement.
pub fn done() -> (step: Step)
    ensures
        responds(step, Ok(ReplyView::Done)),
{
    Step { state: State::Responded, action: Action::Respond(Ok(Reply::Done)) }
}

/// `head` followed by `tail`.
pub fn join(head: &str, tail: &str) -> (text: String)
    ensures
        text@ == head@ + tail@,
{
    let mut text = String::from_str(head);
    text.append(tail);
    text
}

/// A failure's text with a call for the maintainer, so that a person
/// notices what was left half done.
pub open spec fn mention(text: Seq<char>, maintainer: Seq<char>) -> Seq<char> {
    text + " cc "@ + maintainer
}

/// Ends the exchange with a failure: what failed, why, and a call for the
/// maintainer.
pub fn fail_loudly(what: &str, why: &str, maintainer: &str) -> (step: Step)
    ensures
        fails(step, mention(what@ + why@, maintainer@)),
{
    let mut text = join(what, why);
    text.append(" cc ");
    text.append(maintainer);
    fail(text)
}

/// The client of the namespace that holds the lottery's state.
pub open spec fn config_store(config: BotConfig) -> KVClient {
    KVClient {
        token: config.kv.token,
        account_id: config.kv.account_id,
        namespace_id: config.emoji.config_kv_namespace,
    }
}

/// The client of the namespace that holds the guesses of the season that
/// `current` describes.
pub open spec fn data_store(config: BotConfig, current: LotteryConfig) -> KVClient {
    KVClient {
        token: config.kv.token,
        account_id: config.kv.account_id,
        namespace_id: current.data_kv_namespace,
    }
}

/// The client of the namespace that holds the lottery's state.
pub fn config_client(bot_config: &BotConfig) -> (client: KVClient)
    ensures
        client == config_store(*bot_config),
{
    KVClient::new(bot_config.kv.clone(), bot_config.emoji.config_kv_namespace.clone())
}

/// The client of the namespace that holds the season's guesses.
pub fn data_client(bot_config: &BotConfig, current: &LotteryConfig) -> (client: KVClient)
    ensures
        client == data_store(*bot_config, *current),
{
    KVClient::new(bot_config.kv.clone(), current.data_kv_namespace.clone())
}

/// What a read gave: the value, nothing, or the failure, be it the host's
/// or the store's.
pub open spec fn loaded<T>(reply: Result<ReadReply<T>, Error>) -> Result<Option<T>, ErrorView> {
    match reply {
        Ok(found) => read_outcome(found),
        Err(e) => Err(e@),
    }
}

/// Reads what came back from a read.
pub fn load<T>(reply: Result<ReadReply<T>, Error>) -> (outcome: Result<Option<T>, Error>)
    ensures
        match outcome {
            Ok(value) => loaded(reply) == Ok::<Option<T>, ErrorView>(value),
            Err(e) => loaded(reply) == Err::<Option<T>, ErrorView>(e@),
        },
{
    match reply {
        Ok(found) => read_result(found),
        Err(e) => Err(e),
    }
}

/// The failure that came back from a write, if any.
pub open spec fn refused(reply: Result<NoResultResponse, Error>) -> Option<ErrorView> {
    match reply {
        Ok(answer) => envelope_failure(answer.success, answer.errors@),
        Err(e) => Some(e@),
    }
}

/// Reads what came back from a write.
pub fn settle(reply: Result<NoResultResponse, Error>) -> (failure: Option<Error>)
    ensures
        match failure {
            Some(e) => refused(reply) == Some(e@),
            None => refused(reply) is None,
        },
{
    match reply {
        Ok(answer) => match answer.result() {
            Ok(_) => None,
            Err(e) => Some(e),
        },
        Err(e) => Some(e),
    }
}

/// The failure that came back from the deletion of a namespace, if any. That
/// the namespace was not there is none.
pub open spec fn undeleted(reply: Result<NoResultResponse, Error>) -> Option<ErrorView> {
    match reply {
        Ok(answer) => deletion_failure(answer.success, answer.errors@),
        Err(e) => Some(e@),
    }
}

/// Reads what came back from the deletion of a namespace.
pub fn settle_deletion(reply: Result<NoResultResponse, Error>) -> (failure: Option<Error>)
    ensures
        match failure {
            Some(e) => undeleted(reply) == Some(e@),
            None => undeleted(reply) is None,
        },
{
    match reply {
        Ok(answer) => match delete_result(&answer) {
            Ok(_) => None,
            Err(e) => Some(e),
        },
        Err(e) => Some(e),
    }
}

/// The state that the lottery is in: what the store holds, or what the bot
/// is configured with while the store holds nothing.
pub open spec fn current_config(stored: Option<LotteryConfig>, config: BotConfig) -> LotteryConfig {
    match stored {
        Some(current) => current,
        None => config.emoji,
    }
}

/// The state that the lottery is in.
pub fn current_of(stored: Option<LotteryConfig>, bot_config: &BotConfig) -> (current: LotteryConfig)
    ensures
        current == current_config(stored, *bot_config),
{
    match stored {
        Some(current) => current,
        None => bot_config.emoji.clone(),
    }
}

/// The complaint about a path that no operation answers.
pub open spec fn unhandled_text(path: Seq<char>) -> Seq<char> {
    "No handler defined for route "@ + debug_text(path)
}

/// The complaint about a path that no operation answers.
pub fn unhandled(path: &str) -> (text: String)
    ensures
        text@ == unhandled_text(path@),
{
    join("No handler defined for route ", debug_string(path).as_str())
}

/// How a chat event is answered: its body is looked at and acknowledged.
pub open spec fn events_step(event: Event, step: Step) -> bool {
    match event {
        Event::Body(Ok(Inbound::Message(_))) => responds(step, Ok(ReplyView::Done)),
        Event::Body(Err(why)) => fails(step, why@),
        _ => fails(step, "unexpected event"@),
    }
}

/// Answers a chat event.
pub fn events(event: Event) -> (step: Step)
    ensures
        events_step(event, step),
{
    match event {
        Event::Body(Ok(Inbound::Message(_))) => done(),
        Event::Body(Err(why)) => fail(why),
        _ => fail(String::from_str("unexpected event")),
    }
}

/// Where a request that arrived for `url` goes: to the operation that the
/// path of the address selects, which starts by asking for what it needs
/// first. An address that is no URL, and a path that selects no operation,
/// are answered at once.
pub open spec fn routed(url: Seq<char>, ticks: u128, config: BotConfig, step: Step) -> bool {
    match url_path(url) {
        None => fails(step, debug_text(url) + " is not a valid url"@),
        Some(path) => match route_of(path) {
            RouteView::CalendarStart => {
                &&& step.state == State::Start(StartStage::Body { ticks })
                &&& step.action@ == ActionView::ReadBody(BodyKind::Calendar)
            },
            RouteView::CalendarEnd => {
                &&& step.state == State::End(EndStage::Body)
                &&& step.action@ == ActionView::ReadBody(BodyKind::Calendar)
            },
            RouteView::Events => {
                &&& step.state == State::Events
                &&& step.action@ == ActionView::ReadBody(BodyKind::Message)
            },
            RouteView::Submit { submitter } => {
                &&& step.state matches State::Submit(SubmitStage::Body { submitter: who })
                &&& who@ == submitter
                &&& step.action@ == ActionView::ReadBody(BodyKind::Submission)
            },
            RouteView::CheckLastSubmission { submitter } => {
                &&& step.state matches State::Check(CheckStage::Config { submitter: who })
                &&& who@ == submitter
                &&& step.action@ == ActionView::ReadConfig(
                    config_store(config).read_request("lotteryConfig"@),
                )
            },
            RouteView::Unhandled => fails(step, unhandled_text(path)),
        },
    }
}

/// Routes a request that arrived for `url`.
pub fn dispatch(url: &str, ticks: u128, bot_config: &BotConfig) -> (step: Step)
    ensures
        routed(url@, ticks, *bot_config, step),
{
    match Route::from_url(url) {
        None => {
            let mut text = debug_string(url);
            text.append(" is not a valid url");
            fail(text)
        },
        Some((route, path)) => match route {
            Route::CalendarStart => Step {
                state: State::Start(StartStage::Body { ticks }),
                action: Action::ReadBody(BodyKind::Calendar),
            },
            Route::CalendarEnd => Step {
                state: State::End(EndStage::Body),
                action: Action::ReadBody(BodyKind::Calendar),
            },
            Route::Events => Step {
                state: State::Events,
                action: Action::ReadBody(BodyKind::Message),
            },
            Route::Submit { submitter } => Step {
                state: State::Submit(SubmitStage::Body { submitter }),
                action: Action::ReadBody(BodyKind::Submission),
            },
            Route::CheckLastSubmission { submitter } => {
                let client = config_client(bot_config);
                let key = bot_config.emoji.kv_key();
                Step {
                    state: State::Check(CheckStage::Config { submitter }),
                    action: Action::ReadConfig(client.read(key.as_str())),
                }
            },
            Route::Unhandled => fail(unhandled(path.as_str())),
        },
    }
}

/// One move of the engine. A request that has just arrived is routed; from
/// then on the operation that the route selected moves on by the event, and
/// announces to Discord where it announces. Once the caller is answered,
/// and wherever an event is not the one waited for, the answer is a failure.
pub open spec fn bot_step(state: State, event: Event, config: BotConfig, step: Step) -> bool {
    match state {
        State::Received => match event {
            Event::Arrived { url, ticks } => routed(url@, ticks, config, step),
            _ => fails(step, "unexpected event"@),
        },
        State::Start(stage) => start_step(stage, event, config, NotifyTo::Discord, step),
        State::End(stage) => end_step(stage, event, config, NotifyTo::Discord, step),
        State::Submit(stage) => submit_step(stage, event, config, step),
        State::Check(stage) => check_step(stage, event, config, step),
        State::Events => events_step(event, step),
        State::Responded => fails(step, "unexpected event"@),
    }
}

/// Moves the handling of a request on by one event: from the state the
/// engine is in and what the host reports, to the next state and what the
/// host is to do.
pub fn interactive_bot(state: State, event: Event, bot_config: &BotConfig) -> (step: Step)
    ensures
        bot_step(state, event, *bot_config, step),
{
    match state {
        State::Received => match event {
            Event::Arrived { url, ticks } => dispatch(url.as_str(), ticks, bot_config),
            _ => fail(String::from_str("unexpected event")),
        },
        State::Start(stage) => calendar_start(stage, event, bot_config, NotifyTo::Discord),
        State::End(stage) => calendar_end(stage, event, bot_config, NotifyTo::Discord),
        State::Submit(stage) => submit(stage, event, bot_config),
        State::Check(stage) => checkLastSubmission(stage, event, bot_config),
        State::Events => events(event),
        State::Responded => fail(String::from_str("unexpected event")),
    }
}

/// An upper bound on the events that the engine still takes before it
/// answers the caller.
pub open spec fn steps_left(state: State) -> nat {
    match state {
        State::Received => 7,
        State::Start(StartStage::Body { .. }) => 6,
        State::Start(StartStage::Config { .. }) => 5,
        State::Start(StartStage::Delete { .. }) => 4,
        State::Start(StartStage::Create { .. }) => 3,
        State::Start(StartStage::Write { .. }) => 2,
        State::Start(StartStage::Notify) => 1,
        State::End(EndStage::Body) => 4,
        State::End(EndStage::Config { .. }) => 3,
        State::End(EndStage::Write { .. }) => 2,
        State::End(EndStage::Notify) => 1,
        State::Submit(SubmitStage::Body { .. }) => 4,
        State::Submit(SubmitStage::Config { .. }) => 3,
        State::Submit(SubmitStage::Last { .. }) => 2,
        State::Submit(SubmitStage::Write { .. }) => 1,
        State::Check(CheckStage::Config { .. }) => 2,
        State::Check(CheckStage::Last) => 1,
        State::Events => 1,
        State::Responded => 0,
    }
}

/// The action changes what the store holds.
pub open spec fn mutates(action: ActionView) -> bool {
    action is DeleteNamespace || action is CreateNamespace || action is WriteConfig
        || action is WriteGuess
}

/// The event reports that what was asked for in the state `state` went
/// well. Where the deletion of a namespace was asked for, that the namespace
/// was not there is as good as its deletion.
pub open spec fn succeeded(state: State, event: Event) -> bool {
    match event {
        Event::Arrived { .. } => true,
        Event::Body(body) => body is Ok,
        Event::ConfigRead(reply) => loaded(reply) is Ok,
        Event::GuessRead(reply) => loaded(reply) is Ok,
        Event::Answered(reply) => if state matches State::Start(StartStage::Delete { .. }) {
            undeleted(reply) is None
        } else {
            refused(reply) is None
        },
        Event::Created(reply) => created(reply) is Ok,
        Event::Delivered(delivery) => calendar::delivery_outcome(delivery) is Ok,
    }
}

/// Every exchange ends: each move of the engine brings the answer nearer,
/// so that the caller is answered after seven events at most, and the
/// engine answers exactly when it stops.
pub proof fn lemma_exchange_ends(state: State, event: Event, config: BotConfig, step: Step)
    requires
        bot_step(state, event, config, step),
    ensures
        state != State::Responded ==> steps_left(step.state) < steps_left(state),
        step.state == State::Responded <==> step.action@ is Respond,
{
}

/// The answer is final: once the caller is answered, whatever the host
/// reports meets a failure and changes nothing.
pub proof fn lemma_answer_is_final(event: Event, config: BotConfig, step: Step)
    requires
        bot_step(State::Responded, event, config, step),
    ensures
        step.state == State::Responded,
        step.action@ == ActionView::Respond(Err("unexpected event"@)),
{
}

/// A failure is fatal: where the host reports that a read, a write, the
/// decoding of the body or an announcement failed, the engine answers the
/// caller with a failure and asks for nothing more. So the store is never
/// changed on the strength of something that was not read.
pub proof fn lemma_failure_is_fatal(state: State, event: Event, config: BotConfig, step: Step)
    requires
        bot_step(state, event, config, step),
        !succeeded(state, event),
    ensures
        step.state == State::Responded,
        step.action@ matches ActionView::Respond(Err(_)),
{
}

/// Reads come before writes, and writes before the announcement: the store
/// is only changed in answer to a read, a deletion or a creation that went
/// well, and a season is only announced once the store has confirmed that
/// its state is written.
pub proof fn lemma_order_of_effects(state: State, event: Event, config: BotConfig, step: Step)
    requires
        bot_step(state, event, config, step),
    ensures
        mutates(step.action@) ==> succeeded(state, event) && !(event is Arrived) && !(event
            is Body) && !(event is Delivered),
        step.action@ is Announce ==> event is Answered && succeeded(state, event) && (state
            matches State::Start(StartStage::Write { .. }) || state matches State::End(
            EndStage::Write { .. },
        )),
{
}

/// An announcement that could not be sent, or whose answer could not be
/// read, is told apart from a failed store operation: whatever the reasons
/// and the maintainers, the text that reports the one is never the text that
/// reports the other. So the caller can tell a season that changed without
/// anyone being told from one that did not change. (A refusal by the chat
/// service is answered with the service's own reason and nothing else, of
/// which nothing of the kind can be said.)
pub proof fn lemma_notify_failure_is_told_apart(
    why: Seq<char>,
    who: Seq<char>,
    other_why: Seq<char>,
    other_who: Seq<char>,
)
    ensures
        mention("Failed to notify, err: "@ + why, who) != mention(
            "Failed to write new emoji lottery config, err: "@ + other_why,
            other_who,
        ),
        mention("Failed to notify, err: "@ + why, who) != mention(
            "Failed to delete namespace, err: "@ + other_why,
            other_who,
        ),
        mention("Failed to notify, err: "@ + why, who) != mention(
            "Failed to create namespace, err: "@ + other_why,
            other_who,
        ),
        mention("Failed to notify, err: "@ + why, who) != mention(
            "Failed to submit, err: "@ + other_why,
            other_who,
        ),
        mention("Failed to notify, err: "@ + why, who)
            != "Failed to read emoji lottery config, err: "@ + other_why,
        mention("Failed to notify, err: "@ + why, who) != "Can't retrieve last try, err: "@
            + other_why,
        mention("Failed to notify, err: "@ + why, who)
            != "Failed to check last submission, err: "@ + other_why,
{
    reveal_strlit("Failed to notify, err: ");
    reveal_strlit("Failed to write new emoji lottery config, err: ");
    reveal_strlit("Failed to delete namespace, err: ");
    reveal_strlit("Failed to create namespace, err: ");
    reveal_strlit("Failed to submit, err: ");
    reveal_strlit("Failed to read emoji lottery config, err: ");
    reveal_strlit("Can't retrieve last try, err: ");
    reveal_strlit("Failed to check last submission, err: ");
    let told = mention("Failed to notify, err: "@ + why, who);
    assert(told[10] == 'n');
    assert(mention("Failed to write new emoji lottery config, err: "@ + other_why, other_who)[10]
        == 'w');
    assert(mention("Failed to delete namespace, err: "@ + other_why, other_who)[10] == 'd');
    assert(mention("Failed to create namespace, err: "@ + other_why, other_who)[10] == 'c');
    assert(mention("Failed to submit, err: "@ + other_why, other_who)[10] == 's');
    assert(("Failed to read emoji lottery config, err: "@ + other_why)[10] == 'r');
    assert(("Can't retrieve last try, err: "@ + other_why)[10] == 'i');
    assert(("Failed to check last submission, err: "@ + other_why)[10] == 'c');
}

/// Only an accepted guess is written: the engine asks for a guess to be
/// written exactly where the rule, applied to the state and the latest guess
/// that were read, accepts the incoming guess, and it is that guess, under
/// its submitter's key, that is written.
pub proof fn lemma_only_accepted_guesses_are_written(
    state: State,
    event: Event,
    config: BotConfig,
    step: Step,
)
    requires
        bot_step(state, event, config, step),
        step.action@ is WriteGuess,
    ensures
        state matches State::Submit(SubmitStage::Last { submitter, incoming, config: current })
            && event matches Event::GuessRead(reply) && loaded(reply) matches Ok(last)
            && evaluate(current@, last_view(last), incoming@) == SubmissionOutcome::Accepted
            && step.action@ == ActionView::WriteGuess(
            data_store(config, current).write_request(submitter@, incoming@),
        ),
{
}

/// A season's number only moves at its start: what the engine writes as
/// the lottery's state has the number that was read where a season ends,
/// and that number plus one where a season starts.
pub proof fn lemma_written_season(state: State, event: Event, config: BotConfig, step: Step)
    requires
        bot_step(state, event, config, step),
        step.action@ is WriteConfig,
    ensures
        state matches State::End(EndStage::Config { .. }) ==> event matches Event::ConfigRead(
            reply,
        ) && loaded(reply) matches Ok(stored) && step.action@->WriteConfig_0.body
            == current_config(stored, config)@.end(),
        state matches State::Start(StartStage::Create { current, .. })
            ==> step.action@->WriteConfig_0.body.season == current.season + 1
            && step.action@->WriteConfig_0.body.active,
        state matches State::Start(StartStage::Create { .. }) || state matches State::End(
            EndStage::Config { .. },
        ),
{
}

} // verus!
