//! The wire format.
//!
//! One connection is one session. A request starts with a one-byte tag;
//! integers are four bytes, least significant byte first; a password is its
//! length in bytes followed by its UTF-8 bytes. `encoding` says what the bytes
//! of a request are, `parse` reads a request off the front of a buffer, and
//! the two are proved to agree.

use vstd::prelude::*;
use vstd::slice::slice_subrange;
use vstd::string::StringSliceAdditionalSpecFns;
use vstd::utf8::{decode_utf8, decode_utf8_encode_utf8, encode_utf8, encode_utf8_decode_utf8,
    encode_utf8_valid_utf8, valid_utf8};
use crate::ledger::Order;

verus! {

/// The tag of a login request.
pub const TAG_LOGIN: u8 = 0;

/// The tag of a balance request.
pub const TAG_BALANCE: u8 = 1;

/// The tag of a trade request.
pub const TAG_TRADE: u8 = 2;

/// The tag of a history request.
pub const TAG_HISTORY: u8 = 4;

/// The four bytes of an unsigned integer, least significant first.
pub open spec fn le_u32(x: u32) -> Seq<u8> {
    seq![
        (x % 256) as u8,
        (x / 256 % 256) as u8,
        (x / 256 / 256 % 256) as u8,
        (x / 256 / 256 / 256) as u8,
    ]
}

/// The unsigned integer that four bytes stand for, least significant first.
pub open spec fn from_le_u32(bytes: Seq<u8>) -> u32
    recommends
        bytes.len() == 4,
{
    (bytes[0] + 256 * (bytes[1] + 256 * (bytes[2] + 256 * bytes[3]))) as u32
}

/// The bit pattern of a signed integer, in two's complement.
pub open spec fn to_bits(x: i32) -> u32 {
    if x >= 0 {
        x as u32
    } else {
        (x + 0x1_0000_0000) as u32
    }
}

/// The signed integer with a given bit pattern, in two's complement.
pub open spec fn from_bits(bits: u32) -> i32 {
    if bits < 0x8000_0000 {
        bits as i32
    } else {
        (bits - 0x1_0000_0000) as i32
    }
}

/// The four bytes of a signed integer, least significant first.
pub open spec fn le_i32(x: i32) -> Seq<u8> {
    le_u32(to_bits(x))
}

/// The signed integer that four bytes stand for, least significant first.
pub open spec fn from_le_i32(bytes: Seq<u8>) -> i32
    recommends
        bytes.len() == 4,
{
    from_bits(from_le_u32(bytes))
}

/// The low 32 bits of a machine word.
pub open spec fn low_bits(x: usize) -> u32 {
    (x as int % 0x1_0000_0000) as u32
}

/// Writing an integer and reading it back gives the integer.
pub proof fn le_round_trip(x: u32)
    ensures
        le_u32(x).len() == 4,
        from_le_u32(le_u32(x)) == x,
{
    let a = x / 256;
    let b = a / 256;
    let c = b / 256;
    assert(x == a * 256 + x % 256);
    assert(a == b * 256 + a % 256);
    assert(b == c * 256 + b % 256);
    assert(c < 256);
}

/// Reading four bytes and writing them back gives the bytes.
pub proof fn le_unique(bytes: Seq<u8>)
    requires
        bytes.len() == 4,
    ensures
        le_u32(from_le_u32(bytes)) == bytes,
{
    let c = bytes[3] as int;
    let b = bytes[2] + 256 * c;
    let a = bytes[1] + 256 * b;
    let x = bytes[0] + 256 * a;
    assert(x % 256 == bytes[0] && x / 256 == a);
    assert(a % 256 == bytes[1] && a / 256 == b);
    assert(b % 256 == bytes[2] && b / 256 == c);
    assert(0 <= x <= u32::MAX);
    assert(le_u32(from_le_u32(bytes)) =~= bytes);
}

/// A signed integer and its bit pattern determine each other.
pub proof fn bits_round_trip(x: i32, bits: u32)
    ensures
        from_bits(to_bits(x)) == x,
        to_bits(from_bits(bits)) == bits,
        le_i32(x).len() == 4,
        from_le_i32(le_i32(x)) == x,
{
    le_round_trip(to_bits(x));
}

/// The bit pattern of a signed integer.
pub fn bits_of(x: i32) -> (bits: u32)
    ensures
        bits == to_bits(x),
{
    let wide: i64 = x as i64;
    let lifted: i64 = if wide < 0 {
        wide + 4294967296
    } else {
        wide
    };
    lifted as u32
}

/// The signed integer with a given bit pattern.
pub fn signed_of(bits: u32) -> (x: i32)
    ensures
        x == from_bits(bits),
{
    let wide: i64 = bits as i64;
    let lowered: i64 = if wide < 2147483648 {
        wide
    } else {
        wide - 4294967296
    };
    lowered as i32
}

/// The low 32 bits of a machine word.
pub fn low_bits_of(x: usize) -> (bits: u32)
    ensures
        bits == low_bits(x),
{
    ((x as u64) % 4294967296) as u32
}

/// Appends the four bytes of `x`.
pub fn push_u32(out: &mut Vec<u8>, x: u32)
    ensures
        final(out)@ == old(out)@ + le_u32(x),
{
    let ghost before = out@;
    out.push((x % 256) as u8);
    out.push((x / 256 % 256) as u8);
    out.push((x / 256 / 256 % 256) as u8);
    out.push((x / 256 / 256 / 256) as u8);
    assert(out@ =~= before + le_u32(x));
}

/// Appends the four bytes of `x`.
pub fn push_i32(out: &mut Vec<u8>, x: i32)
    ensures
        final(out)@ == old(out)@ + le_i32(x),
{
    push_u32(out, bits_of(x));
}

/// Appends `bytes`.
pub fn push_all(out: &mut Vec<u8>, bytes: &[u8])
    ensures
        final(out)@ == old(out)@ + bytes@,
{
    let ghost before = out@;
    let mut at: usize = 0;
    while at < bytes.len()
        invariant
            at <= bytes@.len(),
            out@ == before + bytes@.subrange(0, at as int),
        decreases bytes@.len() - at,
    {
        out.push(bytes[at]);
        assert(out@ =~= before + bytes@.subrange(0, at as int + 1));
        at = at + 1;
    }
    assert(bytes@.subrange(0, at as int) =~= bytes@);
}

/// Reads the unsigned integer at `at`.
pub fn u32_at(buffer: &[u8], at: usize) -> (x: u32)
    requires
        at + 4 <= buffer@.len(),
    ensures
        x == from_le_u32(buffer@.subrange(at as int, at + 4)),
{
    let b0: u32 = buffer[at] as u32;
    let b1: u32 = buffer[at + 1] as u32;
    let b2: u32 = buffer[at + 2] as u32;
    let b3: u32 = buffer[at + 3] as u32;
    b0 + 256 * (b1 + 256 * (b2 + 256 * b3))
}

/// Reads the signed integer at `at`.
pub fn i32_at(buffer: &[u8], at: usize) -> (x: i32)
    requires
        at + 4 <= buffer@.len(),
    ensures
        x == from_le_i32(buffer@.subrange(at as int, at + 4)),
{
    signed_of(u32_at(buffer, at))
}

/// `std::str::from_utf8`: the bytes as text where they are valid UTF-8, which
/// is then the very same bytes; nothing where they are not.
#[verifier::external_body]
fn utf8_text(bytes: &[u8]) -> (text: Option<&str>)
    ensures
        text is Some <==> valid_utf8(bytes@),
        text matches Some(s) ==> s.spec_bytes() == bytes@,
{
    match std::str::from_utf8(bytes) {
        Ok(text) => Some(text),
        Err(_) => None,
    }
}

/// What a client can ask of a session.
#[derive(Clone, Debug, PartialEq, Eq)]
pub enum Request {
    /// Log in to `region` with `password`.
    Login { region: u8, password: String },
    /// Report the balance of the region logged in to.
    Balance,
    /// Record a transfer of `money` from `sender` to `recipient`.
    Trade { sender: i32, recipient: i32, money: i32 },
    /// Report the `count` most recent orders.
    History { count: u32 },
}

/// A request as a mathematical value.
pub enum RequestView {
    Login { region: u8, password: Seq<char> },
    Balance,
    Trade { sender: i32, recipient: i32, money: i32 },
    History { count: u32 },
}

impl View for Request {
    type V = RequestView;

    open spec fn view(&self) -> RequestView {
        match self {
            Request::Login { region, password } => RequestView::Login {
                region: *region,
                password: password@,
            },
            Request::Balance => RequestView::Balance,
            Request::Trade { sender, recipient, money } => RequestView::Trade {
                sender: *sender,
                recipient: *recipient,
                money: *money,
            },
            Request::History { count } => RequestView::History { count: *count },
        }
    }
}

/// What reading a request off the front of a buffer gives.
pub enum Parsed {
    /// A whole request, and how many bytes it took.
    Complete(RequestView, nat),
    /// The buffer ends inside a request that needs this many bytes in all, as
    /// far as can be told yet.
    Incomplete(nat),
    /// No request starts like this: an unknown tag, or a password that is not
    /// text.
    Malformed,
}

/// What `decode_request` returns: `Parsed`, with the request as a value.
#[derive(Debug)]
pub enum Decoded {
    Complete(Request, usize),
    Incomplete(u64),
    Malformed,
}

/// The bytes of a request.
pub open spec fn encoding(request: RequestView) -> Seq<u8> {
    match request {
        RequestView::Login { region, password } => seq![TAG_LOGIN, region] + le_u32(
            encode_utf8(password).len() as u32,
        ) + encode_utf8(password),
        RequestView::Balance => seq![TAG_BALANCE],
        RequestView::Trade { sender, recipient, money } => seq![TAG_TRADE] + le_i32(sender)
            + le_i32(recipient) + le_i32(money),
        RequestView::History { count } => seq![TAG_HISTORY] + le_u32(count),
    }
}

/// A request can be put on the wire: its password's length fits the length
/// field.
pub open spec fn encodable(request: RequestView) -> bool {
    request matches RequestView::Login { password, .. } ==> encode_utf8(password).len()
        <= u32::MAX
}

/// Reads one request off the front of `bytes`.
pub open spec fn parse(bytes: Seq<u8>) -> Parsed {
    if bytes.len() == 0 {
        Parsed::Incomplete(1)
    } else if bytes[0] == TAG_LOGIN {
        if bytes.len() < 6 {
            Parsed::Incomplete(6)
        } else {
            let length = from_le_u32(bytes.subrange(2, 6));
            if bytes.len() < 6 + length {
                Parsed::Incomplete((6 + length) as nat)
            } else if valid_utf8(bytes.subrange(6, 6 + length)) {
                Parsed::Complete(
                    RequestView::Login {
                        region: bytes[1],
                        password: decode_utf8(bytes.subrange(6, 6 + length)),
                    },
                    (6 + length) as nat,
                )
            } else {
                Parsed::Malformed
            }
        }
    } else if bytes[0] == TAG_BALANCE {
        Parsed::Complete(RequestView::Balance, 1)
    } else if bytes[0] == TAG_TRADE {
        if bytes.len() < 13 {
            Parsed::Incomplete(13)
        } else {
            Parsed::Complete(
                RequestView::Trade {
                    sender: from_le_i32(bytes.subrange(1, 5)),
                    recipient: from_le_i32(bytes.subrange(5, 9)),
                    money: from_le_i32(bytes.subrange(9, 13)),
                },
                13,
            )
        }
    } else if bytes[0] == TAG_HISTORY {
        if bytes.len() < 5 {
            Parsed::Incomplete(5)
        } else {
            Parsed::Complete(RequestView::History { count: from_le_u32(bytes.subrange(1, 5)) }, 5)
        }
    } else {
        Parsed::Malformed
    }
}

/// Round trip. What was encoded is what is parsed, whatever follows it in the
/// buffer, and the parse takes exactly the bytes of the encoding.
pub proof fn law_parse_inverts_encoding(request: RequestView, rest: Seq<u8>)
    requires
        encodable(request),
    ensures
        parse(encoding(request) + rest) == Parsed::Complete(request, encoding(request).len()),
{
    let bytes = encoding(request) + rest;
    match request {
        RequestView::Login { region, password } => {
            let body = encode_utf8(password);
            let length = body.len() as u32;
            le_round_trip(length);
            assert(bytes.subrange(2, 6) =~= le_u32(length));
            assert(bytes.subrange(6, 6 + length) =~= body);
            encode_utf8_valid_utf8(password);
            encode_utf8_decode_utf8(password);
        },
        RequestView::Balance => {},
        RequestView::Trade { sender, recipient, money } => {
            bits_round_trip(sender, 0);
            bits_round_trip(recipient, 0);
            bits_round_trip(money, 0);
            assert(bytes.subrange(1, 5) =~= le_i32(sender));
            assert(bytes.subrange(5, 9) =~= le_i32(recipient));
            assert(bytes.subrange(9, 13) =~= le_i32(money));
        },
        RequestView::History { count } => {
            le_round_trip(count);
            assert(bytes.subrange(1, 5) =~= le_u32(count));
        },
    }
}

/// The format is canonical. A whole request that was read off a buffer has
/// exactly one encoding, and that is the bytes that the parse took.
pub proof fn law_encoding_inverts_parse(bytes: Seq<u8>)
    requires
        parse(bytes) is Complete,
    ensures
        parse(bytes)->Complete_1 <= bytes.len(),
        encodable(parse(bytes)->Complete_0),
        encoding(parse(bytes)->Complete_0) == bytes.subrange(0, parse(bytes)->Complete_1 as int),
{
    let request = parse(bytes)->Complete_0;
    let used = parse(bytes)->Complete_1 as int;
    let taken = bytes.subrange(0, used);
    match request {
        RequestView::Login { region, password } => {
            let length = from_le_u32(bytes.subrange(2, 6));
            let body = bytes.subrange(6, 6 + length);
            decode_utf8_encode_utf8(body);
            le_unique(bytes.subrange(2, 6));
            assert(encoding(request) =~= taken);
        },
        RequestView::Balance => {
            assert(encoding(request) =~= taken);
        },
        RequestView::Trade { sender, recipient, money } => {
            le_unique(bytes.subrange(1, 5));
            le_unique(bytes.subrange(5, 9));
            le_unique(bytes.subrange(9, 13));
            bits_round_trip(0, from_le_u32(bytes.subrange(1, 5)));
            bits_round_trip(0, from_le_u32(bytes.subrange(5, 9)));
            bits_round_trip(0, from_le_u32(bytes.subrange(9, 13)));
            assert(encoding(request) =~= taken);
        },
        RequestView::History { count } => {
            le_unique(bytes.subrange(1, 5));
            assert(encoding(request) =~= taken);
        },
    }
}

/// Reads one request off the front of `buffer`. A whole request comes back
/// with the number of bytes it took; a buffer that ends too early comes back
/// as `Incomplete` with the length to read up to; anything else is
/// `Malformed`.
pub fn decode_request(buffer: &[u8]) -> (decoded: Decoded)
    ensures
        match decoded {
            Decoded::Complete(request, used) => parse(buffer@) == Parsed::Complete(
                request@,
                used as nat,
            ),
            Decoded::Incomplete(needed) => parse(buffer@) == Parsed::Incomplete(needed as nat),
            Decoded::Malformed => parse(buffer@) == Parsed::Malformed,
        },
{
    let len = buffer.len();
    if len == 0 {
        return Decoded::Incomplete(1);
    }
    let tag = buffer[0];
    if tag == TAG_LOGIN {
        if len < 6 {
            return Decoded::Incomplete(6);
        }
        let length = u32_at(buffer, 2);
        if ((len - 6) as u64) < (length as u64) {
            return Decoded::Incomplete(6 + (length as u64));
        }
        let end: usize = 6 + (length as usize);
        let body = slice_subrange(buffer, 6, end);
        match utf8_text(body) {
            Some(text) => {
                proof {
                    encode_utf8_decode_utf8(text@);
                }
                Decoded::Complete(Request::Login { region: buffer[1], password: text.to_owned() }, end)
            },
            None => Decoded::Malformed,
        }
    } else if tag == TAG_BALANCE {
        Decoded::Complete(Request::Balance, 1)
    } else if tag == TAG_TRADE {
        if len < 13 {
            return Decoded::Incomplete(13);
        }
        let sender = i32_at(buffer, 1);
        let recipient = i32_at(buffer, 5);
        let money = i32_at(buffer, 9);
        Decoded::Complete(Request::Trade { sender, recipient, money }, 13)
    } else if tag == TAG_HISTORY {
        if len < 5 {
            return Decoded::Incomplete(5);
        }
        Decoded::Complete(Request::History { count: u32_at(buffer, 1) }, 5)
    } else {
        Decoded::Malformed
    }
}

/// The bytes of `request`, or `None` where its password is too long for the
/// length field.
pub fn encode_request(request: &Request) -> (bytes: Option<Vec<u8>>)
    ensures
        bytes is Some <==> encodable(request@),
        bytes matches Some(out) ==> out@ == encoding(request@),
{
    let mut out: Vec<u8> = Vec::new();
    match request {
        Request::Login { region, password } => {
            let body = password.as_str().as_bytes();
            if body.len() > 0xffff_ffff {
                return None;
            }
            out.push(TAG_LOGIN);
            out.push(*region);
            push_u32(&mut out, body.len() as u32);
            push_all(&mut out, body);
            assert(out@ =~= encoding(request@));
        },
        Request::Balance => {
            out.push(TAG_BALANCE);
            assert(out@ =~= encoding(request@));
        },
        Request::Trade { sender, recipient, money } => {
            out.push(TAG_TRADE);
            push_i32(&mut out, *sender);
            push_i32(&mut out, *recipient);
            push_i32(&mut out, *money);
            assert(out@ =~= encoding(request@));
        },
        Request::History { count } => {
            out.push(TAG_HISTORY);
            push_u32(&mut out, *count);
            assert(out@ =~= encoding(request@));
        },
    }
    Some(out)
}

/// The reply to a login: one byte, 1 for granted and 0 for not.
pub open spec fn login_reply(granted: bool) -> Seq<u8> {
    if granted {
        seq![1u8]
    } else {
        seq![0u8]
    }
}

/// The reply to a history request: how many orders follow, then sender,
/// recipient and amount of each, in the order given.
pub open spec fn history_reply(orders: Seq<Order>) -> Seq<u8> {
    le_u32(orders.len() as u32) + history_body(orders)
}

/// Sender, recipient and amount of each order, twelve bytes an order.
pub open spec fn history_body(orders: Seq<Order>) -> Seq<u8>
    decreases orders.len(),
{
    if orders.len() == 0 {
        Seq::empty()
    } else {
        history_body(orders.drop_last()) + le_i32(orders.last().sender) + le_i32(
            orders.last().recipient,
        ) + le_i32(orders.last().money)
    }
}

/// The body of a history reply is twelve bytes an order.
pub proof fn history_body_len(orders: Seq<Order>)
    ensures
        history_body(orders).len() == 12 * orders.len(),
    decreases orders.len(),
{
    if orders.len() > 0 {
        history_body_len(orders.drop_last());
    }
}

/// The bytes of the reply to a login.
pub fn encode_login_reply(granted: bool) -> (bytes: Vec<u8>)
    ensures
        bytes@ == login_reply(granted),
{
    let mut out: Vec<u8> = Vec::new();
    if granted {
        out.push(1);
    } else {
        out.push(0);
    }
    assert(out@ =~= login_reply(granted));
    out
}

/// The bytes of the reply to a balance request.
pub fn encode_balance(balance: i32) -> (bytes: Vec<u8>)
    ensures
        bytes@ == le_i32(balance),
{
    let mut out: Vec<u8> = Vec::new();
    push_i32(&mut out, balance);
    assert(out@ =~= le_i32(balance));
    out
}

/// The bytes of the reply to a history request.
pub fn encode_history(orders: &Vec<Order>) -> (bytes: Vec<u8>)
    requires
        orders@.len() <= u32::MAX,
    ensures
        bytes@ == history_reply(orders@),
{
    let mut out: Vec<u8> = Vec::new();
    push_u32(&mut out, orders.len() as u32);
    let ghost head = out@;
    let mut at: usize = 0;
    while at < orders.len()
        invariant
            at <= orders@.len(),
            out@ == head + history_body(orders@.subrange(0, at as int)),
        decreases orders@.len() - at,
    {
        let order = orders[at];
        let ghost before = orders@.subrange(0, at as int);
        let ghost after = orders@.subrange(0, at as int + 1);
        assert(after.drop_last() =~= before);
        assert(after.last() == order);
        push_i32(&mut out, order.sender);
        push_i32(&mut out, order.recipient);
        push_i32(&mut out, order.money);
        assert(out@ =~= head + history_body(after));
        at = at + 1;
    }
    assert(orders@.subrange(0, at as int) =~= orders@);
    assert(out@ =~= history_reply(orders@));
    out
}

} // verus!
