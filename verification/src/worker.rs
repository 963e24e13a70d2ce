//! The client's worker: the protocol as the dashboard's side speaks it.
//!
//! The worker opens a connection for every exchange, logs in on it, and then
//! does one thing: confirms a login attempt, sends a trade, or fetches the
//! balance and the latest orders. What to put on the wire, what a reply
//! means and what to tell the dashboard is decided here; connecting, reading
//! and writing is the transport's part.

use vstd::prelude::*;
use vstd::string::StringExecFns;
use vstd::utf8::encode_utf8;
use crate::book::BookState;
use crate::gui::ledger::Trade;
use crate::ledger::Order;
use crate::session::{law_login_reply, ActionView, SessionState};
use crate::wire::{encode_request, encoding, from_bits, from_le_i32, from_le_u32, history_body,
    history_body_len, law_parse_inverts_encoding, le_i32, le_round_trip, low_bits, low_bits_of,
    parse, signed_of, to_bits, u32_at, Parsed, Request, RequestView};

verus! {

/// How many of the latest orders the worker fetches for the dashboard.
pub const HISTORY_DEPTH: usize = 50;

/// What the dashboard asks of the worker.
pub enum ToWorkerMessageContents {
    LoginAttempt(String),
    Trade { sender: usize, receiver: usize, money: usize },
}

/// What the worker tells the dashboard.
#[derive(Debug)]
pub enum FromWorkerMsg {
    ConnectionLive,
    LoggedIn,
    LoginUnlock,
    ConnectionDead,
    Balance(i32),
    UpdateOrder(Vec<Trade>),
}

/// A message from the worker as a mathematical value.
pub enum MessageView {
    ConnectionLive,
    LoggedIn,
    LoginUnlock,
    ConnectionDead,
    Balance(i32),
    UpdateOrder(Seq<Trade>),
}

impl View for FromWorkerMsg {
    type V = MessageView;

    open spec fn view(&self) -> MessageView {
        match self {
            FromWorkerMsg::ConnectionLive => MessageView::ConnectionLive,
            FromWorkerMsg::LoggedIn => MessageView::LoggedIn,
            FromWorkerMsg::LoginUnlock => MessageView::LoginUnlock,
            FromWorkerMsg::ConnectionDead => MessageView::ConnectionDead,
            FromWorkerMsg::Balance(balance) => MessageView::Balance(*balance),
            FromWorkerMsg::UpdateOrder(trades) => MessageView::UpdateOrder(trades@),
        }
    }
}

/// A command to the worker as a mathematical value.
pub enum CommandView {
    LoginAttempt(Seq<char>),
    Trade { sender: usize, receiver: usize, money: usize },
}

impl View for ToWorkerMessageContents {
    type V = CommandView;

    open spec fn view(&self) -> CommandView {
        match self {
            ToWorkerMessageContents::LoginAttempt(password) => CommandView::LoginAttempt(password@),
            ToWorkerMessageContents::Trade { sender, receiver, money } => CommandView::Trade {
                sender: *sender,
                receiver: *receiver,
                money: *money,
            },
        }
    }
}

/// What a connection is opened for, once the login on it went through.
#[derive(Clone, Copy, Debug)]
pub enum Purpose {
    /// Nothing more: the login itself was the point.
    Attempt,
    /// Sending this trade.
    Trade { sender: usize, receiver: usize, money: usize },
    /// Fetching the balance and the latest orders.
    Refresh,
}

/// One exchange with the server: log in with `password`, then `purpose`.
pub struct Exchange {
    pub password: String,
    pub purpose: Purpose,
}

/// An exchange as a mathematical value.
pub struct ExchangeView {
    pub password: Seq<char>,
    pub purpose: Purpose,
}

impl View for Exchange {
    type V = ExchangeView;

    open spec fn view(&self) -> ExchangeView {
        ExchangeView { password: self.password@, purpose: self.purpose }
    }
}

/// What the transport does after the reply to the login came in.
#[derive(Debug)]
pub enum FollowUp {
    /// Nothing.
    Nothing,
    /// Write these bytes: a trade request.
    SendTrade(Vec<u8>),
    /// Ask for the balance and the latest orders, and report both.
    Refresh,
}

/// What the transport does next, as a mathematical value.
pub enum FollowUpView {
    Nothing,
    SendTrade(Seq<u8>),
    Refresh,
}

impl View for FollowUp {
    type V = FollowUpView;

    open spec fn view(&self) -> FollowUpView {
        match self {
            FollowUp::Nothing => FollowUpView::Nothing,
            FollowUp::SendTrade(bytes) => FollowUpView::SendTrade(bytes@),
            FollowUp::Refresh => FollowUpView::Refresh,
        }
    }
}

/// What came of the login of an exchange.
#[derive(Debug)]
pub struct Settled {
    /// What to tell the dashboard, in this order.
    pub messages: Vec<FromWorkerMsg>,
    /// What to do on the connection next.
    pub follow_up: FollowUp,
}

/// The model of the worker: the password that the last login went through
/// with, if any.
pub struct WorkerState {
    pub password: Option<Seq<char>>,
}

impl WorkerState {
    /// What a cycle has to do on the connection that it opened. `None`
    /// where there is nothing to do: no connection, or nobody logged in yet.
    pub open spec fn plan(self, connected: bool, command: Option<CommandView>) -> Option<
        ExchangeView,
    > {
        if !connected {
            None
        } else {
            match command {
                Some(CommandView::LoginAttempt(password)) => Some(
                    ExchangeView { password, purpose: Purpose::Attempt },
                ),
                Some(CommandView::Trade { sender, receiver, money }) => match self.password {
                    Some(password) => Some(
                        ExchangeView {
                            password,
                            purpose: Purpose::Trade { sender, receiver, money },
                        },
                    ),
                    None => None,
                },
                None => match self.password {
                    Some(password) => Some(ExchangeView { password, purpose: Purpose::Refresh }),
                    None => None,
                },
            }
        }
    }

    /// What the dashboard is told after the reply to the login of an
    /// exchange. An attempt that went through is reported as `LoggedIn`, and
    /// every attempt ends with `LoginUnlock`. A trade or a refresh says
    /// nothing where its login went through, and `ConnectionDead` where it
    /// did not.
    pub open spec fn report(exchange: ExchangeView, accepted: bool) -> Seq<MessageView> {
        match exchange.purpose {
            Purpose::Attempt => if accepted {
                seq![MessageView::LoggedIn, MessageView::LoginUnlock]
            } else {
                seq![MessageView::LoginUnlock]
            },
            _ => if accepted {
                Seq::empty()
            } else {
                seq![MessageView::ConnectionDead]
            },
        }
    }

    /// What is done on the connection after the reply to the login of an
    /// exchange: a trade is sent, or the balance and the orders are fetched,
    /// where the login went through; nothing in every other case.
    pub open spec fn follow_up(exchange: ExchangeView, accepted: bool) -> FollowUpView {
        match exchange.purpose {
            Purpose::Trade { sender, receiver, money } if accepted => FollowUpView::SendTrade(
                trade_bytes(sender, receiver, money),
            ),
            Purpose::Refresh if accepted => FollowUpView::Refresh,
            _ => FollowUpView::Nothing,
        }
    }

    /// The worker after the reply to the login of an exchange: a password
    /// that went through is kept, one that did not is forgotten.
    pub open spec fn settle(self, exchange: ExchangeView, accepted: bool) -> WorkerState {
        if accepted {
            match exchange.purpose {
                Purpose::Attempt => WorkerState { password: Some(exchange.password) },
                _ => self,
            }
        } else {
            WorkerState { password: None }
        }
    }
}

/// The bytes of the trade request for a trade as the dashboard gives it: each
/// number by its low 32 bits.
pub open spec fn trade_bytes(sender: usize, receiver: usize, money: usize) -> Seq<u8> {
    encoding(
        RequestView::Trade {
            sender: from_bits(low_bits(sender)),
            recipient: from_bits(low_bits(receiver)),
            money: from_bits(low_bits(money)),
        },
    )
}

/// The `k`-th order of the body of a history reply, as the dashboard shows
/// it: three unsigned numbers of four bytes each.
pub open spec fn record_at(payload: Seq<u8>, k: int) -> Trade {
    Trade {
        sender: from_le_u32(payload.subrange(12 * k, 12 * k + 4)) as usize,
        receiver: from_le_u32(payload.subrange(12 * k + 4, 12 * k + 8)) as usize,
        money: from_le_u32(payload.subrange(12 * k + 8, 12 * k + 12)) as usize,
    }
}

/// An order as the dashboard shows it: every number by its bit pattern.
pub open spec fn shown(order: Order) -> Trade {
    Trade {
        sender: to_bits(order.sender) as usize,
        receiver: to_bits(order.recipient) as usize,
        money: to_bits(order.money) as usize,
    }
}

/// The worker's side of the protocol.
pub struct Worker {
    password: Option<String>,
}

impl View for Worker {
    type V = WorkerState;

    closed spec fn view(&self) -> WorkerState {
        WorkerState {
            password: match self.password {
                Some(password) => Some(password@),
                None => None,
            },
        }
    }
}

impl Worker {
    /// A worker that has not logged in yet.
    pub fn new() -> (worker: Worker)
        ensures
            worker@ == (WorkerState { password: None }),
    {
        Worker { password: None }
    }

    /// Whether a login went through and its password is kept.
    pub fn is_logged_in(&self) -> (yes: bool)
        ensures
            yes == self@.password is Some,
    {
        self.password.is_some()
    }

    /// Starts over, as after a failure of the transport: the password is
    /// forgotten, and the dashboard is told to unlock its login.
    pub fn restart(&mut self) -> (message: FromWorkerMsg)
        ensures
            final(self)@ == (WorkerState { password: None }),
            message is LoginUnlock,
    {
        self.password = None;
        FromWorkerMsg::LoginUnlock
    }

    /// What to tell the dashboard about the connection of this cycle.
    pub fn connection_report(connected: bool) -> (message: FromWorkerMsg)
        ensures
            connected ==> message is ConnectionLive,
            !connected ==> message is ConnectionDead,
    {
        if connected {
            FromWorkerMsg::ConnectionLive
        } else {
            FromWorkerMsg::ConnectionDead
        }
    }

    /// What this cycle has to do on its connection: a login attempt brings
    /// its own password; a trade, and a cycle without a command, use the
    /// password that the last login went through with and are dropped where
    /// there is none.
    pub fn plan(&self, connected: bool, command: Option<ToWorkerMessageContents>) -> (exchange:
        Option<Exchange>)
        ensures
            match exchange {
                Some(e) => self@.plan(
                    connected,
                    match command {
                        Some(c) => Some(c@),
                        None => None,
                    },
                ) == Some(e@),
                None => self@.plan(
                    connected,
                    match command {
                        Some(c) => Some(c@),
                        None => None,
                    },
                ) is None,
            },
    {
        if !connected {
            return None;
        }
        match command {
            Some(ToWorkerMessageContents::LoginAttempt(password)) => Some(
                Exchange { password, purpose: Purpose::Attempt },
            ),
            Some(ToWorkerMessageContents::Trade { sender, receiver, money }) => {
                match &self.password {
                    Some(password) => Some(
                        Exchange {
                            password: password.clone(),
                            purpose: Purpose::Trade { sender, receiver, money },
                        },
                    ),
                    None => None,
                }
            },
            None => {
                match &self.password {
                    Some(password) => Some(
                        Exchange { password: password.clone(), purpose: Purpose::Refresh },
                    ),
                    None => None,
                }
            },
        }
    }

    /// Takes the reply to the login of an exchange, and says what to tell the
    /// dashboard and what to do on the connection next.
    pub fn settle(&mut self, exchange: Exchange, accepted: bool) -> (settled: Settled)
        ensures
            final(self)@ == old(self)@.settle(exchange@, accepted),
            settled.messages@.len() == WorkerState::report(exchange@, accepted).len(),
            forall|i: int|
                0 <= i < settled.messages@.len() ==> (#[trigger] settled.messages@[i])@
                    == WorkerState::report(exchange@, accepted)[i],
            settled.follow_up@ == WorkerState::follow_up(exchange@, accepted),
    {
        let mut messages: Vec<FromWorkerMsg> = Vec::new();
        let Exchange { password, purpose } = exchange;
        match purpose {
            Purpose::Attempt => {
                if accepted {
                    messages.push(FromWorkerMsg::LoggedIn);
                    self.password = Some(password);
                } else {
                    self.password = None;
                }
                messages.push(FromWorkerMsg::LoginUnlock);
                Settled { messages, follow_up: FollowUp::Nothing }
            },
            Purpose::Trade { sender, receiver, money } => {
                if accepted {
                    Settled {
                        messages,
                        follow_up: FollowUp::SendTrade(trade_request(sender, receiver, money)),
                    }
                } else {
                    self.password = None;
                    messages.push(FromWorkerMsg::ConnectionDead);
                    Settled { messages, follow_up: FollowUp::Nothing }
                }
            },
            Purpose::Refresh => {
                if accepted {
                    Settled { messages, follow_up: FollowUp::Refresh }
                } else {
                    self.password = None;
                    messages.push(FromWorkerMsg::ConnectionDead);
                    Settled { messages, follow_up: FollowUp::Nothing }
                }
            },
        }
    }
}

/// The bytes of a login request for region 0 with `password`, or `None`
/// where the password is too long for the length field.
pub fn login_request(password: &str) -> (bytes: Option<Vec<u8>>)
    ensures
        bytes is Some <==> encode_utf8(password@).len() <= u32::MAX,
        bytes matches Some(out) ==> out@ == encoding(
            RequestView::Login { region: 0, password: password@ },
        ),
{
    let request = Request::Login { region: 0, password: String::from_str(password) };
    encode_request(&request)
}

/// Whether the reply to a login says that it went through.
pub fn login_accepted(reply: u8) -> (accepted: bool)
    ensures
        accepted == (reply == 1),
{
    reply == 1
}

/// The bytes of a balance request.
pub fn balance_request() -> (bytes: Vec<u8>)
    ensures
        bytes@ == encoding(RequestView::Balance),
{
    let out = encode_request(&Request::Balance);
    out.unwrap()
}

/// The bytes of a trade request. Each number goes out by its low 32 bits.
pub fn trade_request(sender: usize, receiver: usize, money: usize) -> (bytes: Vec<u8>)
    ensures
        bytes@ == trade_bytes(sender, receiver, money),
{
    let request = Request::Trade {
        sender: signed_of(low_bits_of(sender)),
        recipient: signed_of(low_bits_of(receiver)),
        money: signed_of(low_bits_of(money)),
    };
    let out = encode_request(&request);
    out.unwrap()
}

/// The bytes of a request for the `top` latest orders. The number goes out
/// by its low 32 bits.
pub fn history_request(top: usize) -> (bytes: Vec<u8>)
    ensures
        bytes@ == encoding(RequestView::History { count: low_bits(top) }),
{
    let out = encode_request(&Request::History { count: low_bits_of(top) });
    out.unwrap()
}

/// The unsigned number that four bytes off the wire stand for.
pub fn read_u32(buffer: &[u8; 4]) -> (value: u32)
    ensures
        value == from_le_u32(buffer@),
{
    let bytes = vstd::array::array_as_slice(buffer);
    assert(bytes@.subrange(0, 4) =~= buffer@);
    u32_at(bytes, 0)
}

/// The balance that the four bytes of a balance reply stand for.
pub fn read_balance(buffer: &[u8; 4]) -> (value: i32)
    ensures
        value == from_le_i32(buffer@),
{
    signed_of(read_u32(buffer))
}

/// The orders of a history reply, most recent first. `length` is the count
/// that the reply started with and `payload` what followed it; they have to
/// fit each other, twelve bytes an order. The reply lists the orders oldest
/// first; what comes back is in the opposite order.
pub fn read_orders(length: u32, payload: &[u8]) -> (orders: Option<Vec<Trade>>)
    ensures
        orders is Some <==> payload@.len() == 12 * length,
        orders matches Some(trades) ==> {
            &&& trades@.len() == length
            &&& forall|i: int|
                0 <= i < length ==> #[trigger] trades@[i] == record_at(payload@, length - 1 - i)
        },
{
    if (payload.len() as u64) != 12 * (length as u64) {
        return None;
    }
    let total: usize = payload.len();
    let mut buffer: Vec<Trade> = Vec::new();
    let mut left: usize = length as usize;
    while left > 0
        invariant
            left <= length,
            total == payload@.len(),
            payload@.len() == 12 * length,
            buffer@.len() == length - left,
            forall|i: int|
                0 <= i < buffer@.len() ==> #[trigger] buffer@[i] == record_at(
                    payload@,
                    length - 1 - i,
                ),
        decreases left,
    {
        left = left - 1;
        let at: usize = 12 * left;
        let sender = u32_at(payload, at);
        let receiver = u32_at(payload, at + 4);
        let money = u32_at(payload, at + 8);
        buffer.push(
            Trade { sender: sender as usize, receiver: receiver as usize, money: money as usize },
        );
    }
    Some(buffer)
}

/// The login round trip. The bytes that the worker sends for a password are
/// read by the server as a login to region 0 with that password; and where
/// the server answers with a reply, the worker reads it as accepted exactly
/// when the lock was granted.
pub proof fn law_login_round_trip(session: SessionState, book: BookState, password: Seq<char>)
    requires
        book.wf(),
        session.wf(book),
        !session.closed,
        encode_utf8(password).len() <= u32::MAX,
    ensures
        ({
            let request = RequestView::Login { region: 0, password };
            let action = session.handle(book, request).2;
            &&& parse(encoding(request)) == Parsed::Complete(request, encoding(request).len())
            &&& action matches ActionView::Send(reply) ==> reply.len() == 1 && (reply[0] == 1
                <==> book.try_lock(0, password).1 is Ok)
            &&& action is Send || action is Retry || action is Close
        }),
{
    let request = RequestView::Login { region: 0, password };
    law_parse_inverts_encoding(request, Seq::empty());
    assert(encoding(request) + Seq::<u8>::empty() =~= encoding(request));
    law_login_reply(session, book, 0, password);
}

/// What the server writes, the worker reads. The `k`-th order in the body of
/// the history reply for `orders` is the `k`-th of `orders` as the dashboard
/// shows it, so `read_orders` gives the reply's orders in reverse.
pub proof fn law_history_reads_back(orders: Seq<Order>, k: int)
    requires
        0 <= k < orders.len(),
    ensures
        history_body(orders).len() == 12 * orders.len(),
        record_at(history_body(orders), k) == shown(orders[k]),
    decreases orders.len(),
{
    history_body_len(orders);
    let earlier = orders.drop_last();
    let last = orders.last();
    let body = history_body(orders);
    history_body_len(earlier);
    le_round_trip(to_bits(last.sender));
    le_round_trip(to_bits(last.recipient));
    le_round_trip(to_bits(last.money));
    if k == orders.len() - 1 {
        assert(body.subrange(12 * k, 12 * k + 4) =~= le_i32(last.sender));
        assert(body.subrange(12 * k + 4, 12 * k + 8) =~= le_i32(last.recipient));
        assert(body.subrange(12 * k + 8, 12 * k + 12) =~= le_i32(last.money));
    } else {
        law_history_reads_back(earlier, k);
        let before = history_body(earlier);
        assert(body.subrange(12 * k, 12 * k + 4) =~= before.subrange(12 * k, 12 * k + 4));
        assert(body.subrange(12 * k + 4, 12 * k + 8) =~= before.subrange(12 * k + 4, 12 * k + 8));
        assert(body.subrange(12 * k + 8, 12 * k + 12) =~= before.subrange(
            12 * k + 8,
            12 * k + 12,
        ));
    }
}

} // verus!
