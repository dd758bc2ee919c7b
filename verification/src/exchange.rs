//! One command sent through a client that keeps its connection to itself.
//!
//! Such a client connects and reconnects on its own and does not say when,
//! so the rule of the dispatcher, credentials first on every connection, can
//! only be kept by presenting them in front of every command. An
//! [`Exchange`] does that for one command: it says what to transmit, takes
//! what came back, and ends with the caller's answer. A refused password
//! means that the command is not sent at all and that the answer is
//! [`CacheError::StoreUnavailable`], exactly as a [`Dispatcher`] would have
//! it on a connection of its own.
//!
//! [`Dispatcher`]: crate::dispatcher::Dispatcher

use vstd::prelude::*;

use crate::dispatcher::{greeting_of, DispatchView, DispatcherView, Phase, Submission};
use crate::error::CacheError;
use crate::store::{
    delivery_view, interpret, interpretation, CommandKind, CommandView, Credentials, ReplyView,
    Response, ResponseView, StoreCommand, StoreReply,
};

verus! {

/// How far an exchange has come.
#[derive(Clone, Copy, Debug, PartialEq, Eq, Structural)]
pub enum Step {
    /// The credentials were transmitted; their reply is awaited.
    Authenticating,
    /// The command was transmitted; its reply is awaited.
    Waiting,
    /// The caller has its answer.
    Done,
}

/// What to do next.
#[derive(Debug, PartialEq)]
pub enum Next {
    /// Transmit this command and report what came back.
    Transmit(StoreCommand),
    /// Hand this to the caller.
    Answer(Result<Response, CacheError>),
}

/// A next move as plain values.
pub enum NextView {
    Transmit(CommandView),
    Answer(Result<ResponseView, CacheError>),
}

impl View for Next {
    type V = NextView;

    open spec fn view(&self) -> NextView {
        match self {
            Next::Transmit(command) => NextView::Transmit(command@),
            Next::Answer(delivery) => NextView::Answer(delivery_view(*delivery)),
        }
    }
}

/// The bookkeeping of one exchange.
pub struct Exchange {
    step: Step,
    kind: CommandKind,
    held: Option<StoreCommand>,
}

/// An exchange as plain values.
pub struct ExchangeView {
    pub step: Step,
    /// The kind of the caller's command.
    pub kind: CommandKind,
    /// The caller's command, while it is held back behind the credentials.
    pub held: Option<CommandView>,
}

impl View for Exchange {
    type V = ExchangeView;

    closed spec fn view(&self) -> ExchangeView {
        ExchangeView {
            step: self.step,
            kind: self.kind,
            held: crate::cache::command_view(self.held),
        }
    }
}

/// The view of what was reported.
pub open spec fn reply_view(reply: Option<StoreReply>) -> Option<ReplyView> {
    match reply {
        Some(answer) => Some(answer@),
        None => None,
    }
}

/// How an exchange begins: with the credentials where there are any, and
/// else with the command itself.
pub open spec fn exchange_start(credentials: Option<CommandView>, command: CommandView) -> (
    ExchangeView,
    NextView,
) {
    match credentials {
        Some(auth) => (
            ExchangeView { step: Step::Authenticating, kind: command.kind(), held: Some(command) },
            NextView::Transmit(auth),
        ),
        None => (
            ExchangeView { step: Step::Waiting, kind: command.kind(), held: None },
            NextView::Transmit(command),
        ),
    }
}

/// How an exchange goes on when `reply` is reported; `None` stands for no
/// reply at all: the command did not reach the store, the connection was
/// lost, or time ran out.
///
/// * Accepted credentials let the command go out. Anything else in answer to
///   them ends the exchange: the store is unavailable.
/// * The reply to the command is read as the answer to a command of its kind.
/// * No reply, and any report after the end, is answered alike: the store is
///   unavailable.
pub open spec fn exchange_step(exchange: ExchangeView, reply: Option<ReplyView>) -> (
    ExchangeView,
    NextView,
) {
    let done = ExchangeView { step: Step::Done, kind: exchange.kind, held: None };
    let unavailable = NextView::Answer(Err(CacheError::StoreUnavailable));
    match (exchange.step, reply) {
        (Step::Authenticating, Some(answer)) => match exchange.held {
            Some(command) => if interpretation(CommandKind::Auth, answer) is Ok {
                (
                    ExchangeView { step: Step::Waiting, kind: exchange.kind, held: None },
                    NextView::Transmit(command),
                )
            } else {
                (done, unavailable)
            },
            None => (done, unavailable),
        },
        (Step::Waiting, Some(answer)) => (
            done,
            NextView::Answer(interpretation(exchange.kind, answer)),
        ),
        _ => (done, unavailable),
    }
}

impl Exchange {
    /// Begins the exchange of `command`, with `credentials` to present first
    /// where there are any.
    pub fn begin(credentials: Option<Credentials>, command: StoreCommand) -> (started: (
        Exchange,
        Next,
    ))
        ensures
            (started.0@, started.1@) == exchange_start(greeting_of(credentials), command@),
    {
        let kind = command.kind();
        match credentials {
            Some(c) => (
                Exchange { step: Step::Authenticating, kind, held: Some(command) },
                Next::Transmit(c.auth_command()),
            ),
            None => (Exchange { step: Step::Waiting, kind, held: None }, Next::Transmit(command)),
        }
    }

    /// How far the exchange has come.
    pub fn step(&self) -> (step: Step)
        ensures
            step == self@.step,
    {
        self.step
    }

    /// Takes what came back for the command transmitted last.
    pub fn on_reply(&mut self, reply: Option<StoreReply>) -> (next: Next)
        ensures
            (final(self)@, next@) == exchange_step(old(self)@, reply_view(reply)),
    {
        let step = self.step;
        let held = self.held.take();
        self.step = Step::Done;
        match (step, reply) {
            (Step::Authenticating, Some(answer)) => match held {
                Some(command) => if interpret(CommandKind::Auth, answer).is_ok() {
                    self.step = Step::Waiting;
                    Next::Transmit(command)
                } else {
                    Next::Answer(Err(CacheError::StoreUnavailable))
                },
                None => Next::Answer(Err(CacheError::StoreUnavailable)),
            },
            (Step::Waiting, Some(answer)) => Next::Answer(interpret(self.kind, answer)),
            _ => Next::Answer(Err(CacheError::StoreUnavailable)),
        }
    }
}

/// An exchange answers as a dispatcher does that has the connection to
/// itself. Where the dispatcher, asked to open a connection with the same
/// credentials, is refused by the store, it refuses the caller's command,
/// and the exchange answers `StoreUnavailable` without sending it. Where the
/// credentials are accepted, the dispatcher sends the command under its
/// first ticket and delivers the reply as the exchange answers it.
pub proof fn law_exchange_follows_dispatcher(
    auth: CommandView,
    command: CommandView,
    auth_reply: ReplyView,
    reply: ReplyView,
    limit: nat,
)
    requires
        limit >= 1,
    ensures
        ({
            let idle = DispatcherView {
                credentials: Some(auth),
                phase: Phase::Disconnected,
                in_flight: Seq::empty(),
                next_ticket: 0,
                limit,
            };
            let opened = idle.connected().replied(auth_reply).0;
            let (started, first) = exchange_start(Some(auth), command);
            let (after_auth, second) = exchange_step(started, Some(auth_reply));
            &&& idle.greeting() == Some(auth) && first == NextView::Transmit(auth)
            &&& opened.receipt() is Refused ==> second == NextView::Answer(
                Err(CacheError::StoreUnavailable),
            ) && opened.receipt() == Submission::Refused(CacheError::StoreUnavailable)
            &&& opened.receipt() is Sent ==> second == NextView::Transmit(command)
                && exchange_step(after_auth, Some(reply)).1 == NextView::Answer(
                interpretation(command.kind(), reply),
            ) && opened.submitted(command.kind()).replied(reply).1 == (DispatchView::Deliver {
                ticket: 0,
                result: interpretation(command.kind(), reply),
            })
        }),
{
}

} // verus!
