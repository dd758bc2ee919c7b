//! The part of the backing store's protocol that the cache layer relies on:
//! four commands, the replies the store may give, and what a reply means for
//! the command it answers.

use vstd::prelude::*;
use vstd::string::StringExecFns;
use vstd::utf8::{decode_utf8, valid_utf8};

use crate::error::CacheError;
use crate::text::{decimal, decimal_text, signed_decimal, signed_decimal_text};

verus! {

/// Which of the four commands a command is.
#[derive(Clone, Copy, Debug, PartialEq, Eq, Structural)]
pub enum CommandKind {
    Get,
    SetEx,
    Auth,
    Info,
}

/// A command for the backing store.
#[derive(Debug, Clone, PartialEq)]
pub enum StoreCommand {
    /// Read the value stored under `key`.
    Get { key: String },
    /// Store `value` under `key` and let the store drop it after `ttl` seconds.
    SetEx { key: String, value: String, ttl: u64 },
    /// Present credentials.
    Auth { user: Option<String>, password: String },
    /// Ask the store to describe itself.
    Info,
}

/// A command as plain values.
pub enum CommandView {
    Get { key: Seq<char> },
    SetEx { key: Seq<char>, value: Seq<char>, ttl: nat },
    Auth { user: Option<Seq<char>>, password: Seq<char> },
    Info,
}

/// The view of an optional text.
pub open spec fn text_view(text: Option<String>) -> Option<Seq<char>> {
    match text {
        Some(t) => Some(t@),
        None => None,
    }
}

impl View for StoreCommand {
    type V = CommandView;

    open spec fn view(&self) -> CommandView {
        match self {
            StoreCommand::Get { key } => CommandView::Get { key: key@ },
            StoreCommand::SetEx { key, value, ttl } => CommandView::SetEx {
                key: key@,
                value: value@,
                ttl: *ttl as nat,
            },
            StoreCommand::Auth { user, password } => CommandView::Auth {
                user: text_view(*user),
                password: password@,
            },
            StoreCommand::Info => CommandView::Info,
        }
    }
}

impl CommandView {
    /// Which command this is.
    pub open spec fn kind(self) -> CommandKind {
        match self {
            CommandView::Get { .. } => CommandKind::Get,
            CommandView::SetEx { .. } => CommandKind::SetEx,
            CommandView::Auth { .. } => CommandKind::Auth,
            CommandView::Info => CommandKind::Info,
        }
    }

    /// The words that go on the wire, in order:
    /// `GET key`, `SET key value EX seconds`, `AUTH [user] password`, `INFO`.
    pub open spec fn words(self) -> Seq<Seq<char>> {
        match self {
            CommandView::Get { key } => seq!["GET"@, key],
            CommandView::SetEx { key, value, ttl } => seq![
                "SET"@,
                key,
                value,
                "EX"@,
                decimal_text(ttl),
            ],
            CommandView::Auth { user: None, password } => seq!["AUTH"@, password],
            CommandView::Auth { user: Some(name), password } => seq!["AUTH"@, name, password],
            CommandView::Info => seq!["INFO"@],
        }
    }
}

impl StoreCommand {
    /// Which command this is.
    pub fn kind(&self) -> (kind: CommandKind)
        ensures
            kind == self@.kind(),
    {
        match self {
            StoreCommand::Get { .. } => CommandKind::Get,
            StoreCommand::SetEx { .. } => CommandKind::SetEx,
            StoreCommand::Auth { .. } => CommandKind::Auth,
            StoreCommand::Info => CommandKind::Info,
        }
    }

    /// The words that go on the wire, in order.
    pub fn words(&self) -> (words: Vec<String>)
        ensures
            words.deep_view() == self@.words(),
    {
        let mut words: Vec<String> = Vec::new();
        match self {
            StoreCommand::Get { key } => {
                words.push(String::from_str("GET"));
                words.push(key.clone());
            },
            StoreCommand::SetEx { key, value, ttl } => {
                words.push(String::from_str("SET"));
                words.push(key.clone());
                words.push(value.clone());
                words.push(String::from_str("EX"));
                words.push(decimal(*ttl));
            },
            StoreCommand::Auth { user, password } => {
                words.push(String::from_str("AUTH"));
                match user {
                    Some(name) => {
                        words.push(name.clone());
                    },
                    None => {},
                }
                words.push(password.clone());
            },
            StoreCommand::Info => {
                words.push(String::from_str("INFO"));
            },
        }
        words
    }
}

/// What the store is to be told before any other command on a connection,
/// where it asks for authentication.
#[derive(Debug, Clone, PartialEq)]
pub struct Credentials {
    pub user: Option<String>,
    pub password: String,
}

impl Credentials {
    /// The credentials that a configured password stands for: none where the
    /// password is empty, for then the store is not asked to authenticate.
    pub fn from_password(password: &str) -> (credentials: Option<Credentials>)
        ensures
            credentials is Some <==> password@.len() > 0,
            credentials matches Some(c) ==> c.user is None && c.password@ == password@,
    {
        if password.is_empty() {
            None
        } else {
            Some(Credentials { user: None, password: password.to_owned() })
        }
    }

    /// The command that presents these credentials.
    pub fn auth_command(&self) -> (command: StoreCommand)
        ensures
            command@ == (CommandView::Auth { user: text_view(self.user), password: self.password@ }),
    {
        let user = match &self.user {
            Some(name) => Some(name.clone()),
            None => None,
        };
        StoreCommand::Auth { user, password: self.password.clone() }
    }
}

/// A reply as the store's client hands it over.
#[derive(Debug, Clone, PartialEq)]
pub enum StoreReply {
    /// No value.
    Nil,
    /// A value, as raw bytes.
    Bulk(Vec<u8>),
    /// A one-line status such as `OK`.
    Status(String),
    /// The store refused the command.
    Error(String),
    /// A number.
    Integer(i64),
    /// A list of replies; no command of this crate is answered by one.
    Array,
}

/// A reply as plain values.
pub enum ReplyView {
    Nil,
    Bulk(Seq<u8>),
    Status(Seq<char>),
    Error(Seq<char>),
    Integer(int),
    Array,
}

impl View for StoreReply {
    type V = ReplyView;

    open spec fn view(&self) -> ReplyView {
        match self {
            StoreReply::Nil => ReplyView::Nil,
            StoreReply::Bulk(bytes) => ReplyView::Bulk(bytes@),
            StoreReply::Status(text) => ReplyView::Status(text@),
            StoreReply::Error(text) => ReplyView::Error(text@),
            StoreReply::Integer(number) => ReplyView::Integer(*number as int),
            StoreReply::Array => ReplyView::Array,
        }
    }
}

/// What a command gave, in the shape that belongs to the command.
#[derive(Debug, Clone, PartialEq)]
pub enum Response {
    /// The answer to `GET`: the stored text, or `None` where the key is absent.
    Value(Option<String>),
    /// The answer to `SET` and to `AUTH`: accepted.
    Done,
    /// The answer to `INFO`: the store's description of itself, or `None`
    /// where the store gave none.
    Info(Option<String>),
}

/// A response as plain values.
pub enum ResponseView {
    Value(Option<Seq<char>>),
    Done,
    Info(Option<Seq<char>>),
}

impl View for Response {
    type V = ResponseView;

    open spec fn view(&self) -> ResponseView {
        match self {
            Response::Value(text) => ResponseView::Value(text_view(*text)),
            Response::Done => ResponseView::Done,
            Response::Info(text) => ResponseView::Info(text_view(*text)),
        }
    }
}

/// What the dispatcher hands to the caller who sent a command.
pub open spec fn delivery_view(delivery: Result<Response, CacheError>) -> Result<
    ResponseView,
    CacheError,
> {
    match delivery {
        Ok(response) => Ok(response@),
        Err(error) => Err(error),
    }
}

/// What `reply` means as the answer to a command of kind `kind`.
///
/// * An error reply: the store is unavailable to this caller.
/// * `GET`: nil is an absent key; a bulk reply that is UTF-8 is the value.
/// * `INFO`: nil is no description; a bulk reply that is UTF-8, a status
///   line, and a number written in decimal are the description.
/// * `SET`, `AUTH`: the status `OK` is acceptance.
/// * Every other pairing is a reply of the wrong shape.
pub open spec fn interpretation(kind: CommandKind, reply: ReplyView) -> Result<
    ResponseView,
    CacheError,
> {
    match reply {
        ReplyView::Error(_) => Err(CacheError::StoreUnavailable),
        ReplyView::Nil => if kind is Get {
            Ok(ResponseView::Value(None))
        } else if kind is Info {
            Ok(ResponseView::Info(None))
        } else {
            Err(CacheError::StoreMalformed)
        },
        ReplyView::Bulk(bytes) => if !valid_utf8(bytes) {
            Err(CacheError::StoreMalformed)
        } else if kind is Get {
            Ok(ResponseView::Value(Some(decode_utf8(bytes))))
        } else if kind is Info {
            Ok(ResponseView::Info(Some(decode_utf8(bytes))))
        } else {
            Err(CacheError::StoreMalformed)
        },
        ReplyView::Status(text) => if kind is Info {
            Ok(ResponseView::Info(Some(text)))
        } else if (kind is SetEx || kind is Auth) && text == "OK"@ {
            Ok(ResponseView::Done)
        } else {
            Err(CacheError::StoreMalformed)
        },
        ReplyView::Integer(number) => if kind is Info {
            Ok(ResponseView::Info(Some(signed_decimal_text(number))))
        } else {
            Err(CacheError::StoreMalformed)
        },
        ReplyView::Array => Err(CacheError::StoreMalformed),
    }
}

/// Whether `text` is the status `OK`.
pub fn is_ok_status(text: &String) -> (yes: bool)
    ensures
        yes == (text@ == "OK"@),
{
    let expected = String::from_str("OK");
    *text == expected
}

/// Reads `reply` as the answer to a command of kind `kind`.
pub fn interpret(kind: CommandKind, reply: StoreReply) -> (delivery: Result<Response, CacheError>)
    ensures
        delivery_view(delivery) == interpretation(kind, reply@),
{
    match reply {
        StoreReply::Error(_) => Err(CacheError::StoreUnavailable),
        StoreReply::Nil => match kind {
            CommandKind::Get => Ok(Response::Value(None)),
            CommandKind::Info => Ok(Response::Info(None)),
            _ => Err(CacheError::StoreMalformed),
        },
        StoreReply::Bulk(bytes) => match String::from_utf8(bytes) {
            Err(_) => Err(CacheError::StoreMalformed),
            Ok(text) => match kind {
                CommandKind::Get => Ok(Response::Value(Some(text))),
                CommandKind::Info => Ok(Response::Info(Some(text))),
                _ => Err(CacheError::StoreMalformed),
            },
        },
        StoreReply::Status(text) => match kind {
            CommandKind::Info => Ok(Response::Info(Some(text))),
            CommandKind::SetEx | CommandKind::Auth => if is_ok_status(&text) {
                Ok(Response::Done)
            } else {
                Err(CacheError::StoreMalformed)
            },
            CommandKind::Get => Err(CacheError::StoreMalformed),
        },
        StoreReply::Integer(number) => match kind {
            CommandKind::Info => Ok(Response::Info(Some(signed_decimal(number)))),
            _ => Err(CacheError::StoreMalformed),
        },
        StoreReply::Array => Err(CacheError::StoreMalformed),
    }
}

/// What the caller of `INFO` gets out of a delivery: the description, `None`
/// where the store gave none, or the error. A response of another command's
/// shape is a reply of the wrong shape.
pub open spec fn info_of(delivery: Result<ResponseView, CacheError>) -> Result<
    Option<Seq<char>>,
    CacheError,
> {
    match delivery {
        Ok(ResponseView::Info(text)) => Ok(text),
        Ok(_) => Err(CacheError::StoreMalformed),
        Err(error) => Err(error),
    }
}

/// The plain value of an answer to `INFO`.
pub open spec fn info_view(answer: Result<Option<String>, CacheError>) -> Result<
    Option<Seq<char>>,
    CacheError,
> {
    match answer {
        Ok(text) => Ok(text_view(text)),
        Err(error) => Err(error),
    }
}

/// Takes the answer to `INFO` out of a delivery.
pub fn info_text(delivery: Result<Response, CacheError>) -> (answer: Result<
    Option<String>,
    CacheError,
>)
    ensures
        info_view(answer) == info_of(delivery_view(delivery)),
{
    match delivery {
        Ok(Response::Info(text)) => Ok(text),
        Ok(_) => Err(CacheError::StoreMalformed),
        Err(error) => Err(error),
    }
}

} // verus!
