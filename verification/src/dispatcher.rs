//! The store dispatcher: the single owner of the connection to the backing
//! store.
//!
//! The dispatcher does no I/O. Its owner reports what happens on the
//! connection and is told what to put on the wire and whom to answer:
//!
//! * [`Dispatcher::on_connected`]: a connection is up. Where credentials were
//!   given at startup, the first thing sent on it is `AUTH`.
//! * [`Dispatcher::submit`]: a caller wants a command sent. The caller gets a
//!   ticket; the command goes on the wire behind those sent before it.
//! * [`Dispatcher::on_reply`]: the store replied. The store answers commands
//!   in the order in which it got them, so the reply belongs to the oldest
//!   command still waiting, and to no other.
//! * [`Dispatcher::on_disconnected`]: the connection is gone, and with it the
//!   replies to everything still waiting.
//!
//! No failure is a panic: a caller whose command cannot be served gets
//! [`CacheError::StoreUnavailable`], and treats it as a cache miss.

use std::collections::VecDeque;
use vstd::prelude::*;

use crate::error::CacheError;
use crate::store::{
    delivery_view, interpret, interpretation, CommandKind, CommandView, Credentials, ReplyView,
    Response, ResponseView, StoreCommand, StoreReply,
};

verus! {

/// The state of the connection.
#[derive(Clone, Copy, Debug, PartialEq, Eq, Structural)]
pub enum Phase {
    /// There is no connection.
    Disconnected,
    /// `AUTH` was sent on the connection and not answered yet.
    Authenticating,
    /// Commands are served.
    Ready,
    /// The store refused the credentials: nothing is served until the
    /// connection is replaced.
    Rejected,
}

/// A command that was sent and not answered yet.
#[derive(Clone, Copy, Debug, PartialEq, Eq, Structural)]
pub struct Waiting {
    pub ticket: u64,
    pub kind: CommandKind,
}

/// What a caller gets for a command.
#[derive(Clone, Copy, Debug, PartialEq, Eq, Structural)]
pub enum Submission {
    /// Put the command on the wire now. The reply will be delivered under
    /// `ticket`.
    Sent { ticket: u64 },
    /// The command is not sent, and this is the caller's answer.
    Refused(CacheError),
}

/// What follows from a reply.
#[derive(Debug, PartialEq)]
pub enum Dispatch {
    /// The store accepted the credentials.
    Authenticated,
    /// The store refused the credentials.
    Denied,
    /// Hand `result` to the caller who holds `ticket`.
    Deliver { ticket: u64, result: Result<Response, CacheError> },
    /// Nothing was waiting for a reply: it is dropped.
    Unexpected,
}

/// A dispatch as plain values.
pub enum DispatchView {
    Authenticated,
    Denied,
    Deliver { ticket: u64, result: Result<ResponseView, CacheError> },
    Unexpected,
}

impl View for Dispatch {
    type V = DispatchView;

    open spec fn view(&self) -> DispatchView {
        match self {
            Dispatch::Authenticated => DispatchView::Authenticated,
            Dispatch::Denied => DispatchView::Denied,
            Dispatch::Deliver { ticket, result } => DispatchView::Deliver {
                ticket: *ticket,
                result: delivery_view(*result),
            },
            Dispatch::Unexpected => DispatchView::Unexpected,
        }
    }
}

impl DispatchView {
    /// What the caller is told whose command the reply was reported for: the
    /// delivery, and where nothing was delivered, that the store is
    /// unavailable.
    pub open spec fn delivery(self) -> Result<ResponseView, CacheError> {
        match self {
            DispatchView::Deliver { result, .. } => result,
            _ => Err(CacheError::StoreUnavailable),
        }
    }
}

impl Dispatch {
    /// What the caller is told whose command the reply was reported for.
    pub fn into_delivery(self) -> (delivery: Result<Response, CacheError>)
        ensures
            delivery_view(delivery) == self@.delivery(),
    {
        match self {
            Dispatch::Deliver { result, .. } => result,
            _ => Err(CacheError::StoreUnavailable),
        }
    }
}

/// A dispatcher as plain values.
pub struct DispatcherView {
    /// The `AUTH` command to open every connection with, if any.
    pub credentials: Option<CommandView>,
    pub phase: Phase,
    /// The commands sent and not answered, oldest first.
    pub in_flight: Seq<Waiting>,
    /// The ticket that the next accepted command gets.
    pub next_ticket: u64,
    /// How many commands may wait for a reply at once.
    pub limit: nat,
}

impl DispatcherView {
    /// What holds of every dispatcher: tickets were given out in rising
    /// order, no more commands wait than the limit allows, and without a
    /// connection none waits.
    pub open spec fn wf(self) -> bool {
        &&& self.in_flight.len() <= self.limit
        &&& forall|i: int|
            0 <= i < self.in_flight.len() ==> (#[trigger] self.in_flight[i]).ticket
                < self.next_ticket
        &&& forall|i: int, j: int|
            0 <= i < j < self.in_flight.len() ==> (#[trigger] self.in_flight[i]).ticket < (
            #[trigger] self.in_flight[j]).ticket
        &&& self.phase is Disconnected ==> self.in_flight.len() == 0
    }

    /// The same dispatcher in another phase.
    pub open spec fn in_phase(self, phase: Phase) -> DispatcherView {
        DispatcherView { phase, ..self }
    }

    /// What is sent first on a new connection.
    pub open spec fn greeting(self) -> Option<CommandView> {
        if self.phase is Disconnected {
            self.credentials
        } else {
            None
        }
    }

    /// The dispatcher after a connection came up. With a connection in place
    /// already, nothing changes.
    pub open spec fn connected(self) -> DispatcherView {
        if self.phase is Disconnected {
            if self.credentials is Some {
                self.in_phase(Phase::Authenticating)
            } else {
                self.in_phase(Phase::Ready)
            }
        } else {
            self
        }
    }

    /// Whether a command submitted now is sent: there is a connection that
    /// the store has not closed to us, room among the waiting commands, and
    /// a ticket left.
    pub open spec fn accepts(self) -> bool {
        &&& self.phase is Ready || self.phase is Authenticating
        &&& self.in_flight.len() < self.limit
        &&& self.next_ticket < u64::MAX
    }

    /// The dispatcher after a command of kind `kind` was submitted.
    pub open spec fn submitted(self, kind: CommandKind) -> DispatcherView {
        if self.accepts() {
            DispatcherView {
                in_flight: self.in_flight.push(Waiting { ticket: self.next_ticket, kind }),
                next_ticket: (self.next_ticket + 1) as u64,
                ..self
            }
        } else {
            self
        }
    }

    /// What the caller of a submitted command gets.
    pub open spec fn receipt(self) -> Submission {
        if self.accepts() {
            Submission::Sent { ticket: self.next_ticket }
        } else {
            Submission::Refused(CacheError::StoreUnavailable)
        }
    }

    /// The dispatcher after `reply` arrived, and what follows from the reply.
    ///
    /// While `AUTH` is unanswered the reply is its answer. Otherwise the
    /// reply answers the oldest waiting command; on a connection that the
    /// store has closed to us, whatever the reply says, the caller is told
    /// that the store is unavailable.
    pub open spec fn replied(self, reply: ReplyView) -> (DispatcherView, DispatchView) {
        match self.phase {
            Phase::Disconnected => (self, DispatchView::Unexpected),
            Phase::Authenticating => if interpretation(CommandKind::Auth, reply) is Ok {
                (self.in_phase(Phase::Ready), DispatchView::Authenticated)
            } else {
                (self.in_phase(Phase::Rejected), DispatchView::Denied)
            },
            Phase::Ready | Phase::Rejected => if self.in_flight.len() > 0 {
                let oldest = self.in_flight[0];
                (
                    DispatcherView { in_flight: self.in_flight.drop_first(), ..self },
                    DispatchView::Deliver {
                        ticket: oldest.ticket,
                        result: if self.phase is Ready {
                            interpretation(oldest.kind, reply)
                        } else {
                            Err(CacheError::StoreUnavailable)
                        },
                    },
                )
            } else {
                (self, DispatchView::Unexpected)
            },
        }
    }

    /// The tickets whose callers are told that the store is unavailable when
    /// the connection is lost: all that wait, oldest first.
    pub open spec fn abandoned(self) -> Seq<u64> {
        Seq::new(self.in_flight.len(), |i: int| self.in_flight[i].ticket)
    }

    /// The dispatcher after the connection was lost.
    pub open spec fn disconnected(self) -> DispatcherView {
        DispatcherView { phase: Phase::Disconnected, in_flight: Seq::empty(), ..self }
    }
}

/// The `AUTH` command that presents `credentials`, if there are any.
pub open spec fn greeting_of(credentials: Option<Credentials>) -> Option<CommandView> {
    match credentials {
        Some(c) => Some(
            CommandView::Auth { user: crate::store::text_view(c.user), password: c.password@ },
        ),
        None => None,
    }
}

/// The owner of the connection's bookkeeping.
pub struct Dispatcher {
    credentials: Option<Credentials>,
    phase: Phase,
    in_flight: VecDeque<Waiting>,
    next_ticket: u64,
    limit: usize,
}

impl View for Dispatcher {
    type V = DispatcherView;

    closed spec fn view(&self) -> DispatcherView {
        DispatcherView {
            credentials: greeting_of(self.credentials),
            phase: self.phase,
            in_flight: self.in_flight@,
            next_ticket: self.next_ticket,
            limit: self.limit as nat,
        }
    }
}

impl Dispatcher {
    /// A dispatcher without a connection. `credentials` are kept for the
    /// dispatcher's lifetime; `limit` bounds the commands that may wait for a
    /// reply at once.
    pub fn new(credentials: Option<Credentials>, limit: usize) -> (dispatcher: Dispatcher)
        ensures
            dispatcher@.wf(),
            dispatcher@.phase is Disconnected,
            dispatcher@.in_flight.len() == 0,
            dispatcher@.next_ticket == 0,
            dispatcher@.limit == limit,
            dispatcher@.credentials == greeting_of(credentials),
    {
        Dispatcher {
            credentials,
            phase: Phase::Disconnected,
            in_flight: VecDeque::new(),
            next_ticket: 0,
            limit,
        }
    }

    /// The state of the connection.
    pub fn phase(&self) -> (phase: Phase)
        ensures
            phase == self@.phase,
    {
        self.phase
    }

    /// How many commands wait for a reply.
    pub fn waiting(&self) -> (count: usize)
        ensures
            count == self@.in_flight.len(),
    {
        self.in_flight.len()
    }

    /// A connection came up. The command, if any, is to be sent on it before
    /// anything else.
    pub fn on_connected(&mut self) -> (first: Option<StoreCommand>)
        ensures
            final(self)@ == old(self)@.connected(),
            crate::cache::command_view(first) == old(self)@.greeting(),
    {
        match self.phase {
            Phase::Disconnected => match &self.credentials {
                Some(credentials) => {
                    let first = credentials.auth_command();
                    self.phase = Phase::Authenticating;
                    Some(first)
                },
                None => {
                    self.phase = Phase::Ready;
                    None
                },
            },
            _ => None,
        }
    }

    /// A caller wants `command` sent.
    pub fn submit(&mut self, command: &StoreCommand) -> (receipt: Submission)
        ensures
            final(self)@ == old(self)@.submitted(command@.kind()),
            receipt == old(self)@.receipt(),
    {
        let open = match self.phase {
            Phase::Ready | Phase::Authenticating => true,
            _ => false,
        };
        if open && self.in_flight.len() < self.limit && self.next_ticket < u64::MAX {
            let ticket = self.next_ticket;
            self.next_ticket = ticket + 1;
            self.in_flight.push_back(Waiting { ticket, kind: command.kind() });
            Submission::Sent { ticket }
        } else {
            Submission::Refused(CacheError::StoreUnavailable)
        }
    }

    /// The store replied.
    pub fn on_reply(&mut self, reply: StoreReply) -> (dispatch: Dispatch)
        ensures
            (final(self)@, dispatch@) == old(self)@.replied(reply@),
    {
        match self.phase {
            Phase::Disconnected => Dispatch::Unexpected,
            Phase::Authenticating => {
                let accepted = interpret(CommandKind::Auth, reply).is_ok();
                if accepted {
                    self.phase = Phase::Ready;
                    Dispatch::Authenticated
                } else {
                    self.phase = Phase::Rejected;
                    Dispatch::Denied
                }
            },
            Phase::Ready => match self.in_flight.pop_front() {
                Some(oldest) => Dispatch::Deliver {
                    ticket: oldest.ticket,
                    result: interpret(oldest.kind, reply),
                },
                None => Dispatch::Unexpected,
            },
            Phase::Rejected => match self.in_flight.pop_front() {
                Some(oldest) => Dispatch::Deliver {
                    ticket: oldest.ticket,
                    result: Err(CacheError::StoreUnavailable),
                },
                None => Dispatch::Unexpected,
            },
        }
    }

    /// The connection is lost. Every caller whose ticket is returned is to be
    /// told that the store is unavailable.
    pub fn on_disconnected(&mut self) -> (tickets: Vec<u64>)
        ensures
            final(self)@ == old(self)@.disconnected(),
            tickets@ == old(self)@.abandoned(),
    {
        let mut tickets: Vec<u64> = Vec::new();
        let mut i: usize = 0;
        while i < self.in_flight.len()
            invariant
                i <= self.in_flight.len(),
                tickets@ == Seq::new(i as nat, |k: int| self.in_flight@[k].ticket),
                *self == *old(self),
            decreases self.in_flight.len() - i,
        {
            tickets.push(self.in_flight[i].ticket);
            i += 1;
        }
        self.in_flight.clear();
        self.phase = Phase::Disconnected;
        tickets
    }
}

/// Every step keeps the dispatcher well formed: tickets stay in rising
/// order, the limit is kept, and without a connection nothing waits.
pub proof fn law_steps_keep_dispatcher_well_formed(
    dispatcher: DispatcherView,
    kind: CommandKind,
    reply: ReplyView,
)
    requires
        dispatcher.wf(),
    ensures
        dispatcher.connected().wf(),
        dispatcher.submitted(kind).wf(),
        dispatcher.replied(reply).0.wf(),
        dispatcher.disconnected().wf(),
{
}

/// On a ready connection with nothing waiting, `INFO` resolves to its
/// reply: the store's text, nothing where the store answered nil, and an
/// error where the store refused or the reply has no text in it.
pub proof fn law_info_resolves_to_its_reply(dispatcher: DispatcherView, reply: ReplyView)
    requires
        dispatcher.phase is Ready,
        dispatcher.in_flight.len() == 0,
        dispatcher.accepts(),
    ensures
        dispatcher.receipt() == (Submission::Sent { ticket: dispatcher.next_ticket }),
        dispatcher.submitted(CommandKind::Info).replied(reply).1 == (DispatchView::Deliver {
            ticket: dispatcher.next_ticket,
            result: interpretation(CommandKind::Info, reply),
        }),
        dispatcher.submitted(CommandKind::Info).replied(reply).0.in_flight.len() == 0,
        crate::store::info_of(interpretation(CommandKind::Info, reply)) == (match reply {
            ReplyView::Nil => Ok(None),
            ReplyView::Bulk(bytes) => if vstd::utf8::valid_utf8(bytes) {
                Ok(Some(vstd::utf8::decode_utf8(bytes)))
            } else {
                Err(CacheError::StoreMalformed)
            },
            ReplyView::Status(text) => Ok(Some(text)),
            ReplyView::Integer(number) => Ok(Some(crate::text::signed_decimal_text(number))),
            ReplyView::Error(_) => Err(CacheError::StoreUnavailable),
            ReplyView::Array => Err(CacheError::StoreMalformed),
        }),
{
    assert(dispatcher.submitted(CommandKind::Info).in_flight.drop_first() =~= Seq::empty());
}

/// What happens on a connection in use: a caller submits a command, or the
/// store replies.
pub enum Traffic {
    Submit(CommandKind),
    Reply(ReplyView),
}

/// The record of some traffic: the commands that were sent (those waiting at
/// the start first), the replies that found a command waiting, and what was
/// delivered for them, each in order of occurrence.
pub struct Ledger {
    pub sent: Seq<Waiting>,
    pub answered: Seq<ReplyView>,
    pub delivered: Seq<DispatchView>,
}

/// The dispatcher after some traffic, and the record of that traffic.
pub open spec fn play(start: DispatcherView, traffic: Seq<Traffic>) -> (DispatcherView, Ledger)
    decreases traffic.len(),
{
    if traffic.len() == 0 {
        (
            start,
            Ledger { sent: start.in_flight, answered: Seq::empty(), delivered: Seq::empty() },
        )
    } else {
        let (before, ledger) = play(start, traffic.drop_last());
        match traffic.last() {
            Traffic::Submit(kind) => if before.accepts() {
                (
                    before.submitted(kind),
                    Ledger {
                        sent: ledger.sent.push(Waiting { ticket: before.next_ticket, kind }),
                        ..ledger
                    },
                )
            } else {
                (before, ledger)
            },
            Traffic::Reply(reply) => {
                let (after, dispatch) = before.replied(reply);
                if dispatch is Deliver {
                    (
                        after,
                        Ledger {
                            sent: ledger.sent,
                            answered: ledger.answered.push(reply),
                            delivered: ledger.delivered.push(dispatch),
                        },
                    )
                } else {
                    (after, ledger)
                }
            },
        }
    }
}

/// However submissions and replies interleave on a ready connection, every
/// reply reaches the caller of the command it answers: the k-th delivery
/// carries the ticket of the k-th command sent and reads the k-th reply as
/// the answer to that command. No two commands share a ticket, so no caller
/// gets another caller's reply.
pub proof fn law_replies_reach_their_commands(start: DispatcherView, traffic: Seq<Traffic>)
    requires
        start.wf(),
        start.phase is Ready,
    ensures
        ({
            let (end, ledger) = play(start, traffic);
            &&& end.wf()
            &&& end.phase is Ready
            &&& ledger.delivered.len() == ledger.answered.len()
            &&& ledger.delivered.len() <= ledger.sent.len()
            &&& end.in_flight == ledger.sent.skip(ledger.delivered.len() as int)
            &&& forall|k: int|
                0 <= k < ledger.delivered.len() ==> #[trigger] ledger.delivered[k]
                    == (DispatchView::Deliver {
                    ticket: ledger.sent[k].ticket,
                    result: interpretation(ledger.sent[k].kind, ledger.answered[k]),
                })
            &&& forall|i: int, j: int|
                0 <= i < j < ledger.sent.len() ==> (#[trigger] ledger.sent[i]).ticket < (
                #[trigger] ledger.sent[j]).ticket
            &&& forall|i: int|
                0 <= i < ledger.sent.len() ==> (#[trigger] ledger.sent[i]).ticket
                    < end.next_ticket
        }),
    decreases traffic.len(),
{
    if traffic.len() == 0 {
        assert(start.in_flight.skip(0) == start.in_flight);
    } else {
        law_replies_reach_their_commands(start, traffic.drop_last());
        let (before, ledger) = play(start, traffic.drop_last());
        let done = ledger.delivered.len() as int;
        match traffic.last() {
            Traffic::Submit(kind) => {
                law_steps_keep_dispatcher_well_formed(before, kind, ReplyView::Nil);
                if before.accepts() {
                    let added = Waiting { ticket: before.next_ticket, kind };
                    assert(ledger.sent.skip(done).push(added) =~= ledger.sent.push(added).skip(
                        done,
                    ));
                }
            },
            Traffic::Reply(reply) => {
                law_steps_keep_dispatcher_well_formed(before, CommandKind::Get, reply);
                if before.in_flight.len() > 0 {
                    assert(ledger.sent.skip(done).drop_first() =~= ledger.sent.skip(done + 1));
                }
            },
        }
    }
}

/// Once the store has refused the credentials, every command is refused at
/// once with `StoreUnavailable`, and every command sent before the refusal
/// was known is answered with `StoreUnavailable` too, until a new connection
/// takes the place of this one.
pub proof fn law_denied_connection_serves_nothing(
    dispatcher: DispatcherView,
    kind: CommandKind,
    reply: ReplyView,
)
    requires
        dispatcher.phase is Rejected,
    ensures
        dispatcher.receipt() == Submission::Refused(CacheError::StoreUnavailable),
        dispatcher.submitted(kind) == dispatcher,
        dispatcher.replied(reply).0.phase is Rejected,
        dispatcher.replied(reply).1 matches DispatchView::Deliver { result, .. } ==> result == Err::<
            ResponseView,
            CacheError,
        >(CacheError::StoreUnavailable),
{
}

/// Credentials given at startup are presented first on every new
/// connection, and a reply other than acceptance closes that connection to
/// all callers.
pub proof fn law_auth_comes_first(dispatcher: DispatcherView, reply: ReplyView)
    requires
        dispatcher.phase is Disconnected,
        dispatcher.credentials is Some,
    ensures
        dispatcher.greeting() == dispatcher.credentials,
        dispatcher.connected().phase is Authenticating,
        dispatcher.connected().replied(reply).0.phase == (if interpretation(
            CommandKind::Auth,
            reply,
        ) is Ok {
            Phase::Ready
        } else {
            Phase::Rejected
        }),
{
}

} // verus!
