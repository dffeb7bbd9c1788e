//! The telemetry line protocol: any received chunk is answered with one line
//! `<temperature>,<humidity>\n`; an empty read or an error closes the link.
use crate::telemetry::Reading;
use vstd::prelude::*;

verus! {

/// ASCII decimal digits of `n`, most significant first, without leading zeros.
pub open spec fn decimal(n: nat) -> Seq<u8>
    decreases n,
{
    if n < 10 {
        seq![(n + 48) as u8]
    } else {
        decimal(n / 10).push((n % 10 + 48) as u8)
    }
}

/// Decimal form of a signed integer, with a leading `-` when negative.
pub open spec fn signed_decimal(v: int) -> Seq<u8> {
    if v < 0 {
        seq![45u8] + decimal((-v) as nat)
    } else {
        decimal(v as nat)
    }
}

/// The reply line for one reading.
pub open spec fn reply_line(r: Reading) -> Seq<u8> {
    signed_decimal(r.temperature as int) + seq![44u8] + decimal(r.humidity as nat) + seq![10u8]
}

/// A non-empty run of ASCII digits.
pub open spec fn is_digits(s: Seq<u8>) -> bool {
    s.len() > 0 && forall|i: int| 0 <= i < s.len() ==> 48 <= #[trigger] s[i] <= 57
}

/// `s` is `a,b\n` or `-a,b\n` with `a` and `b` runs of digits.
pub open spec fn shaped_by(s: Seq<u8>, a: Seq<u8>, b: Seq<u8>) -> bool {
    is_digits(a) && is_digits(b) && (s == a + seq![44u8] + b + seq![10u8] || s == seq![45u8] + a
        + seq![44u8] + b + seq![10u8])
}

/// The shape `-?digits,digits\n`.
pub open spec fn is_reply_shape(s: Seq<u8>) -> bool {
    exists|a: Seq<u8>, b: Seq<u8>| #[trigger] shaped_by(s, a, b)
}

/// Relies on itoa::Buffer::format: the shortest decimal form of `v`, with a
/// leading '-' when it is negative.
#[verifier::external_body]
fn decimal_of(v: i64) -> (r: Vec<u8>)
    ensures
        r@ == signed_decimal(v as int),
{
    let mut buf = itoa::Buffer::new();
    buf.format(v).as_bytes().to_vec()
}

/// Renders a reading as the reply line sent to telemetry clients.
pub fn format_reply(reading: Reading) -> (line: Vec<u8>)
    ensures
        line@ == reply_line(reading),
{
    let mut line = decimal_of(reading.temperature as i64);
    line.push(44u8);
    let mut humidity = decimal_of(reading.humidity as i64);
    line.append(&mut humidity);
    line.push(10u8);
    assert(line@ =~= reply_line(reading));
    line
}

proof fn lemma_decimal_digits(n: nat)
    ensures
        is_digits(decimal(n)),
    decreases n,
{
    if n >= 10 {
        lemma_decimal_digits(n / 10);
        let d = decimal(n / 10);
        assert forall|i: int| 0 <= i < decimal(n).len() implies 48 <= #[trigger] decimal(n)[i] <= 57 by {
            if i < d.len() {
                assert(decimal(n)[i] == d[i]);
            }
        }
    }
}

/// Every reply line has the shape `-?digits,digits\n`.
pub proof fn lemma_reply_shape(r: Reading)
    ensures
        is_reply_shape(reply_line(r)),
{
    let t = r.temperature as int;
    let b = decimal(r.humidity as nat);
    lemma_decimal_digits(r.humidity as nat);
    if t < 0 {
        let a = decimal((-t) as nat);
        lemma_decimal_digits((-t) as nat);
        assert(reply_line(r) =~= seq![45u8] + a + seq![44u8] + b + seq![10u8]);
        assert(shaped_by(reply_line(r), a, b));
    } else {
        let a = decimal(t as nat);
        lemma_decimal_digits(t as nat);
        assert(reply_line(r) =~= a + seq![44u8] + b + seq![10u8]);
        assert(shaped_by(reply_line(r), a, b));
    }
}

/// Whether the server waits for a client or serves one.
#[derive(Clone, Copy, Debug, PartialEq, Eq, Structural)]
pub enum ServerPhase {
    Listening,
    Connected,
}

/// What the network side reports back. An idle-connection timeout is a
/// `ReadFailed`.
#[derive(Clone, Copy, Debug, PartialEq, Eq, Structural)]
pub enum ServerEvent {
    Accepted,
    AcceptFailed,
    Received(usize),
    ReadFailed,
    Sent,
    SendFailed,
}

/// What the network side is to do next.
#[derive(Debug)]
pub enum ServerAction {
    /// Wait for the next client.
    Accept,
    /// Wait for data from the client.
    Read,
    /// Write these bytes to the client.
    Send(Vec<u8>),
    /// Close the connection, then wait for the next client.
    Close,
}

/// The kind of an action, without its bytes.
#[derive(Clone, Copy, Debug, PartialEq, Eq, Structural)]
pub enum ActionKind {
    Accept,
    Read,
    Reply,
    Close,
}

/// The result of one decision: next phase, next action, and whether the
/// connection indicator is lit.
#[derive(Debug)]
pub struct ServerStep {
    pub phase: ServerPhase,
    pub action: ServerAction,
    pub indicator: bool,
}

pub open spec fn kind_of(a: ServerAction) -> ActionKind {
    match a {
        ServerAction::Accept => ActionKind::Accept,
        ServerAction::Read => ActionKind::Read,
        ServerAction::Send(_) => ActionKind::Reply,
        ServerAction::Close => ActionKind::Close,
    }
}

/// The action owed for an event in a phase.
pub open spec fn next_action(phase: ServerPhase, event: ServerEvent) -> ActionKind {
    match phase {
        ServerPhase::Listening => match event {
            ServerEvent::Accepted => ActionKind::Read,
            _ => ActionKind::Accept,
        },
        ServerPhase::Connected => match event {
            ServerEvent::Received(n) => if n > 0 {
                ActionKind::Reply
            } else {
                ActionKind::Close
            },
            ServerEvent::Sent => ActionKind::Read,
            _ => ActionKind::Close,
        },
    }
}

/// The phase after an action: connected while reading or replying.
pub open spec fn phase_after(a: ActionKind) -> ServerPhase {
    match a {
        ActionKind::Read | ActionKind::Reply => ServerPhase::Connected,
        _ => ServerPhase::Listening,
    }
}

/// Decides the server's next action from its phase, the latest event, and the
/// current telemetry reading.
pub fn server_step(phase: ServerPhase, event: ServerEvent, reading: Reading) -> (r: ServerStep)
    ensures
        kind_of(r.action) == next_action(phase, event),
        r.phase == phase_after(next_action(phase, event)),
        r.indicator == (r.phase == ServerPhase::Connected),
        r.action matches ServerAction::Send(b) ==> b@ == reply_line(reading),
{
    let action = match phase {
        ServerPhase::Listening => match event {
            ServerEvent::Accepted => ServerAction::Read,
            _ => ServerAction::Accept,
        },
        ServerPhase::Connected => match event {
            ServerEvent::Received(n) => if n > 0 {
                ServerAction::Send(format_reply(reading))
            } else {
                ServerAction::Close
            },
            ServerEvent::Sent => ServerAction::Read,
            _ => ServerAction::Close,
        },
    };
    let connected = match action {
        ServerAction::Read | ServerAction::Send(_) => true,
        _ => false,
    };
    let next = if connected {
        ServerPhase::Connected
    } else {
        ServerPhase::Listening
    };
    ServerStep { phase: next, action, indicator: connected }
}

/// Round trip: on an open connection, a non-empty chunk is answered with
/// exactly one line of the shape `-?digits,digits\n`, and the link stays
/// open; an empty read closes it with no reply.
pub proof fn lemma_chunk_reply(reading: Reading, n: usize)
    ensures
        n > 0 ==> next_action(ServerPhase::Connected, ServerEvent::Received(n)) == ActionKind::Reply
            && phase_after(ActionKind::Reply) == ServerPhase::Connected
            && is_reply_shape(reply_line(reading)),
        n == 0 ==> next_action(ServerPhase::Connected, ServerEvent::Received(n)) == ActionKind::Close
            && phase_after(ActionKind::Close) == ServerPhase::Listening,
{
    lemma_reply_shape(reading);
}

} // verus!
