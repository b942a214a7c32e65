//! Client of the remote key-value store: the requests it sends and what
//! the store's answers mean.

use crate::error;
use crate::http::bearer_header;
use crate::http::bearer_headers;
use crate::http::json_header;
use crate::http::lemma_headers_well_formed;
use crate::http::Method;
use crate::http::Request;
use crate::http::RequestView;
use crate::text::decimal;
use crate::text::push_decimal;
use crate::time::format_utc;
use crate::time::utc_text;
use vstd::prelude::*;
use vstd::string::*;

verus! {

/// A submitter's latest guess: the model of [`Guess`].
pub struct GuessView {
    pub value: Seq<char>,
    pub created_at: i64,
}

/// A submitter's latest guess and the epoch second at which it was made.
#[derive(Debug, PartialEq, Eq)]
pub struct Guess {
    pub value: String,
    pub created_at: i64,
}

impl View for Guess {
    type V = GuessView;

    open spec fn view(&self) -> GuessView {
        GuessView { value: self.value@, created_at: self.created_at }
    }
}

impl Clone for Guess {
    fn clone(&self) -> (copy: Self)
        ensures
            copy == *self,
    {
        Guess { value: self.value.clone(), created_at: self.created_at }
    }
}

impl GuessView {
    /// The guess in words, given the text `when` of its time.
    pub open spec fn text(self, when: Seq<char>) -> Seq<char> {
        self.value + " submitted at "@ + when
    }
}

impl Guess {
    /// The guess in words, given the text `when` of its time.
    pub fn describe(&self, when: &str) -> (text: String)
        ensures
            text@ == self@.text(when@),
    {
        let mut text = self.value.clone();
        text.append(" submitted at ");
        text.append(when);
        text
    }

    /// The guess in words, with its time as a UTC date; `None` where the
    /// calendar cannot hold that time.
    pub fn to_string(&self) -> (text: Option<String>)
        ensures
            match text {
                Some(t) => utc_text(self.created_at) is Some && t@ == self@.text(
                    utc_text(self.created_at).unwrap(),
                ),
                None => utc_text(self.created_at) is None,
            },
    {
        match format_utc(self.created_at) {
            Some(when) => Some(self.describe(when.as_str())),
            None => None,
        }
    }
}

/// The model of an [`Error`].
pub struct ErrorView {
    pub code: u16,
    pub message: Seq<char>,
}

/// One entry of the error list in an answer of the store.
#[derive(Debug, PartialEq, Eq)]
pub struct Error {
    pub code: u16,
    pub message: String,
}

impl View for Error {
    type V = ErrorView;

    open spec fn view(&self) -> ErrorView {
        ErrorView { code: self.code, message: self.message@ }
    }
}

impl Clone for Error {
    fn clone(&self) -> (copy: Self)
        ensures
            copy == *self,
    {
        Error { code: self.code, message: self.message.clone() }
    }
}

impl ErrorView {
    /// The entry in words.
    pub open spec fn text(self) -> Seq<char> {
        "kv error, code: "@ + decimal(self.code as nat) + ", message: "@ + self.message
    }
}

impl Error {
    /// The entry in words.
    pub fn to_string(&self) -> (text: String)
        ensures
            text@ == self@.text(),
    {
        let mut text = String::from_str("kv error, code: ");
        push_decimal(&mut text, self.code as u128);
        text.append(", message: ");
        text.append(self.message.as_str());
        text
    }
}

/// The code with which the store says that it holds nothing under a key.
pub const KEY_NOT_FOUND: u16 = 10009;

/// The code with which the store says that it holds no such namespace.
pub const NAMESPACE_NOT_FOUND: u16 = 10013;

/// An answer of the store that carries no result.
#[derive(Debug, PartialEq, Eq)]
pub struct NoResultResponse {
    pub success: bool,
    pub errors: Vec<Error>,
    pub messages: Vec<String>,
}

/// An answer of the store that carries a result where all went well.
#[derive(Debug, PartialEq, Eq)]
pub struct ExpectResultResponse<T> {
    pub result: Option<T>,
    pub success: bool,
    pub errors: Vec<Error>,
    pub messages: Vec<String>,
}

/// What the success flag and the error list of an answer without a result
/// say: the first listed error, or a failure without one; `None` where the
/// flag is set and the list is empty, the one case that is no failure.
pub open spec fn envelope_failure(success: bool, errors: Seq<Error>) -> Option<error::ErrorView> {
    if errors.len() > 0 {
        Some(error::ErrorView::Kv(errors[0]@))
    } else if !success {
        Some(error::ErrorView::KvFailed)
    } else {
        None
    }
}

impl NoResultResponse {
    /// Whether the operation went through: it did where the store says so
    /// and lists no error, and only there.
    pub fn result(&self) -> (outcome: Result<(), error::Error>)
        ensures
            match outcome {
                Ok(_) => envelope_failure(self.success, self.errors@) is None,
                Err(e) => envelope_failure(self.success, self.errors@) == Some(e@),
            },
    {
        if self.errors.len() > 0 {
            Err(error::Error::Kv(self.errors[0].clone()))
        } else if !self.success {
            Err(error::Error::KvFailed)
        } else {
            Ok(())
        }
    }
}

/// What the answer to a deletion says. A namespace that was not there is
/// as gone as one that was deleted: an answer whose first error says that
/// the namespace was not found is no failure. Any other answer says what
/// its success flag and error list say.
pub open spec fn deletion_failure(success: bool, errors: Seq<Error>) -> Option<error::ErrorView> {
    if errors.len() > 0 && errors[0].code == NAMESPACE_NOT_FOUND {
        None
    } else {
        envelope_failure(success, errors)
    }
}

/// Reads the store's answer to the deletion of a namespace.
pub fn delete_result(answer: &NoResultResponse) -> (outcome: Result<(), error::Error>)
    ensures
        match outcome {
            Ok(_) => deletion_failure(answer.success, answer.errors@) is None,
            Err(e) => deletion_failure(answer.success, answer.errors@) == Some(e@),
        },
{
    if answer.errors.len() > 0 && answer.errors[0].code == NAMESPACE_NOT_FOUND {
        Ok(())
    } else {
        answer.result()
    }
}

/// Deleting is idempotent: the answer to the deletion of a namespace that
/// is not there reads exactly as the answer to a deletion that went
/// through, so that deleting twice in a row is done both times.
pub proof fn lemma_delete_is_idempotent(first: NoResultResponse, second: NoResultResponse)
    requires
        first.success && first.errors@.len() == 0,
        second.errors@.len() > 0 && second.errors@[0].code == NAMESPACE_NOT_FOUND,
    ensures
        deletion_failure(first.success, first.errors@) is None,
        deletion_failure(second.success, second.errors@) == deletion_failure(
            first.success,
            first.errors@,
        ),
{
}

/// What an answer that is to carry a result gives. The first listed error
/// decides; without one, an answer that carries no result is the complaint
/// that there is none, whatever its success flag says; one that carries a
/// result and reports no success is a failure; only a result that comes with
/// success and without errors is given.
pub open spec fn result_outcome<T>(
    result: Option<T>,
    success: bool,
    errors: Seq<Error>,
) -> Result<T, error::ErrorView> {
    if errors.len() > 0 {
        Err(error::ErrorView::Kv(errors[0]@))
    } else if result is None {
        Err(error::ErrorView::KvNoResult)
    } else if !success {
        Err(error::ErrorView::KvFailed)
    } else {
        Ok(result.unwrap())
    }
}

impl<T> ExpectResultResponse<T> {
    /// The result of the operation: the first error that the answer lists,
    /// else the complaint that it carries no result, else the failure that
    /// its flag reports, else the result it carries.
    pub fn result(self) -> (outcome: Result<T, error::Error>)
        ensures
            match outcome {
                Ok(r) => result_outcome(self.result, self.success, self.errors@) == Ok::<
                    T,
                    error::ErrorView,
                >(r),
                Err(e) => result_outcome(self.result, self.success, self.errors@) == Err::<
                    T,
                    error::ErrorView,
                >(e@),
            },
    {
        if self.errors.len() > 0 {
            return Err(error::Error::Kv(self.errors[0].clone()));
        }
        match self.result {
            None => Err(error::Error::KvNoResult),
            Some(r) => {
                if self.success {
                    Ok(r)
                } else {
                    Err(error::Error::KvFailed)
                }
            },
        }
    }
}

/// An answer gives its result only where it reports success and lists no
/// error, and an answer that lists an error gives that error even where it
/// carries a result.
pub proof fn lemma_result_needs_success<T>(result: Option<T>, success: bool, errors: Seq<Error>)
    ensures
        result_outcome(result, success, errors) is Ok <==> success && errors.len() == 0 && result
            is Some,
        result_outcome(result, success, errors) is Ok ==> result == Some(
            result_outcome(result, success, errors)->Ok_0,
        ),
        errors.len() > 0 ==> result_outcome(result, success, errors) == Err::<
            T,
            error::ErrorView,
        >(error::ErrorView::Kv(errors[0]@)),
        errors.len() == 0 && result is None ==> result_outcome(result, success, errors) == Err::<
            T,
            error::ErrorView,
        >(error::ErrorView::KvNoResult),
{
}

/// What came back when a key was read: the value, where the store answered
/// with one, else the store's answer without a result.
#[derive(Debug, PartialEq, Eq)]
pub enum ReadReply<T> {
    Found(T),
    Refused(NoResultResponse),
}

/// What reading a key gives: the value; nothing, where the store says that
/// the key was not found, which is no failure; else the failure.
pub open spec fn read_outcome<T>(reply: ReadReply<T>) -> Result<Option<T>, error::ErrorView> {
    match reply {
        ReadReply::Found(value) => Ok(Some(value)),
        ReadReply::Refused(answer) => {
            if answer.errors@.len() > 0 && answer.errors@[0].code == KEY_NOT_FOUND {
                Ok(None)
            } else if answer.errors@.len() > 0 {
                Err(error::ErrorView::Kv(answer.errors@[0]@))
            } else {
                Err(error::ErrorView::KvNoResult)
            }
        },
    }
}

/// Reads the store's reply to a read.
pub fn read_result<T>(reply: ReadReply<T>) -> (outcome: Result<Option<T>, error::Error>)
    ensures
        match outcome {
            Ok(value) => read_outcome(reply) == Ok::<Option<T>, error::ErrorView>(value),
            Err(e) => read_outcome(reply) == Err::<Option<T>, error::ErrorView>(e@),
        },
{
    match reply {
        ReadReply::Found(value) => Ok(Some(value)),
        ReadReply::Refused(answer) => {
            if answer.errors.len() > 0 {
                if answer.errors[0].code == KEY_NOT_FOUND {
                    Ok(None)
                } else {
                    Err(error::Error::Kv(answer.errors[0].clone()))
                }
            } else {
                Err(error::Error::KvNoResult)
            }
        },
    }
}

/// Not found is no error: a refusal whose first error is the not-found code
/// reads as an absent value, and every other refusal reads as a failure.
pub proof fn lemma_not_found_is_absent<T>(answer: NoResultResponse)
    ensures
        answer.errors@.len() > 0 && answer.errors@[0].code == KEY_NOT_FOUND ==> read_outcome(
            ReadReply::<T>::Refused(answer),
        ) == Ok::<Option<T>, error::ErrorView>(None),
        !(answer.errors@.len() > 0 && answer.errors@[0].code == KEY_NOT_FOUND) ==> read_outcome(
            ReadReply::<T>::Refused(answer),
        ) is Err,
{
}

/// The credentials of the store's API.
#[derive(Debug, PartialEq, Eq)]
pub struct KVConfig {
    pub token: String,
    pub account_id: String,
}

impl Clone for KVConfig {
    fn clone(&self) -> (copy: Self)
        ensures
            copy == *self,
    {
        KVConfig { token: self.token.clone(), account_id: self.account_id.clone() }
    }
}

/// A client of the store, bound to one namespace.
#[derive(Debug, PartialEq, Eq)]
pub struct KVClient {
    pub token: String,
    pub account_id: String,
    pub namespace_id: String,
}

/// What a new namespace is made from.
#[derive(Debug, PartialEq, Eq)]
pub struct CreateNamespaceBody {
    pub title: String,
}

impl View for CreateNamespaceBody {
    type V = Seq<char>;

    open spec fn view(&self) -> Seq<char> {
        self.title@
    }
}

/// The store's description of a new namespace.
#[derive(Debug, PartialEq, Eq)]
pub struct CreateNamespaceResult {
    pub id: String,
    pub title: String,
    pub supports_url_encoding: bool,
}

/// Where the namespaces of the account `account` live.
pub open spec fn namespaces_url(account: Seq<char>) -> Seq<char> {
    "https://api.cloudflare.com/client/v4/accounts/"@ + account + "/storage/kv/namespaces"@
}

/// Where the namespace `namespace` of the account `account` lives.
pub open spec fn namespace_url(account: Seq<char>, namespace: Seq<char>) -> Seq<char> {
    namespaces_url(account) + "/"@ + namespace
}

/// Where the value under `key` lives.
pub open spec fn value_url(account: Seq<char>, namespace: Seq<char>, key: Seq<char>) -> Seq<
    char,
> {
    namespace_url(account, namespace) + "/values/"@ + key
}

/// The headers of every request to the store.
pub open spec fn store_headers(token: Seq<char>) -> Seq<(Seq<char>, Seq<char>)> {
    seq![bearer_header(token), json_header()]
}

impl KVClient {
    /// The request that reads the value under `key`.
    pub open spec fn read_request(self, key: Seq<char>) -> RequestView<()> {
        RequestView {
            url: value_url(self.account_id@, self.namespace_id@, key),
            method: Method::GET,
            headers: store_headers(self.token@),
            body: (),
        }
    }

    /// The request that puts `val` under `key`.
    pub open spec fn write_request<V>(self, key: Seq<char>, val: V) -> RequestView<V> {
        RequestView {
            url: value_url(self.account_id@, self.namespace_id@, key),
            method: Method::PUT,
            headers: store_headers(self.token@),
            body: val,
        }
    }

    /// The request that makes a namespace with the title `title`.
    pub open spec fn create_request(self, title: Seq<char>) -> RequestView<Seq<char>> {
        RequestView {
            url: namespaces_url(self.account_id@),
            method: Method::POST,
            headers: store_headers(self.token@),
            body: title,
        }
    }

    /// The request that deletes the namespace `namespace`.
    pub open spec fn delete_request(self, namespace: Seq<char>) -> RequestView<()> {
        RequestView {
            url: namespace_url(self.account_id@, namespace),
            method: Method::DELETE,
            headers: store_headers(self.token@),
            body: (),
        }
    }

    /// A client for the namespace `namespace_id`.
    pub fn new(config: KVConfig, namespace_id: String) -> (client: KVClient)
        ensures
            client == (KVClient {
                token: config.token,
                account_id: config.account_id,
                namespace_id,
            }),
    {
        KVClient { token: config.token, account_id: config.account_id, namespace_id }
    }

    /// The address of the account's namespaces.
    fn namespaces(&self) -> (url: String)
        ensures
            url@ == namespaces_url(self.account_id@),
    {
        let mut url = String::from_str("https://api.cloudflare.com/client/v4/accounts/");
        url.append(self.account_id.as_str());
        url.append("/storage/kv/namespaces");
        url
    }

    /// The address of the value under `key` in the client's namespace.
    fn value(&self, key: &str) -> (url: String)
        ensures
            url@ == value_url(self.account_id@, self.namespace_id@, key@),
    {
        let mut url = self.namespaces();
        url.append("/");
        url.append(self.namespace_id.as_str());
        url.append("/values/");
        url.append(key);
        url
    }

    /// The request that reads the value under `key`. What comes back is
    /// read by [`read_result`].
    pub fn read(&self, key: &str) -> (request: Request<()>)
        ensures
            request@ == self.read_request(key@),
            request@.well_formed(),
    {
        proof {
            lemma_headers_well_formed(self.read_request(key@), self.token@);
        }
        Request {
            url: self.value(key),
            method: Method::GET,
            headers: bearer_headers(self.token.as_str()),
            body: (),
        }
    }

    /// The request that puts `val` under `key`, in place of what was there.
    /// What comes back is read by [`NoResultResponse::result`].
    pub fn write<T: View>(&self, key: &str, val: T) -> (request: Request<T>)
        ensures
            request@ == self.write_request(key@, val@),
            request@.well_formed(),
    {
        proof {
            lemma_headers_well_formed(self.write_request(key@, val@), self.token@);
        }
        Request {
            url: self.value(key),
            method: Method::PUT,
            headers: bearer_headers(self.token.as_str()),
            body: val,
        }
    }

    /// The request that makes a namespace with the title `title`. What comes
    /// back is read by [`ExpectResultResponse::result`].
    pub fn create_namespace(&self, title: String) -> (request: Request<CreateNamespaceBody>)
        ensures
            request@ == self.create_request(title@),
            request@.well_formed(),
    {
        proof {
            lemma_headers_well_formed(self.create_request(title@), self.token@);
        }
        Request {
            url: self.namespaces(),
            method: Method::POST,
            headers: bearer_headers(self.token.as_str()),
            body: CreateNamespaceBody { title },
        }
    }

    /// The request that deletes the namespace `namespace_id`. What comes back
    /// is read by [`delete_result`].
    pub fn delete_namespace(&self, namespace_id: String) -> (request: Request<()>)
        ensures
            request@ == self.delete_request(namespace_id@),
            request@.well_formed(),
    {
        proof {
            lemma_headers_well_formed(self.delete_request(namespace_id@), self.token@);
        }
        let mut url = self.namespaces();
        url.append("/");
        url.append(namespace_id.as_str());
        Request {
            url,
            method: Method::DELETE,
            headers: bearer_headers(self.token.as_str()),
            body: (),
        }
    }
}

} // verus!
