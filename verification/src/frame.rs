//! The control-channel wire protocol.
//!
//! A client sends one command per connection as a fixed-capacity byte
//! frame. The daemon strips the frame's trailing zero bytes, decodes the
//! remainder as UTF-8 text (lossily when invalid), and dispatches on the
//! command it spells. Every recognized command maps to exactly one
//! handler action; anything else is answered with `unknown` and changes
//! nothing.

use vstd::prelude::*;

verus! {

/// Capacity of one command frame in bytes. Longer input is truncated by
/// the single fixed-size read that fills the frame.
pub const TCP_BUFFER_SIZE: usize = 1024;

/// `bytes` without its trailing zero bytes.
pub open spec fn spec_strip_trailing_zeros(bytes: Seq<u8>) -> Seq<u8>
    decreases bytes.len(),
{
    if bytes.len() == 0 {
        bytes
    } else if bytes.last() == 0 {
        spec_strip_trailing_zeros(bytes.drop_last())
    } else {
        bytes
    }
}

/// Stripping keeps exactly the prefix up to the last non-zero byte.
proof fn lemma_strip_take(bytes: Seq<u8>, end: int)
    requires
        0 <= end <= bytes.len(),
        forall|j: int| end <= j < bytes.len() ==> bytes[j] == 0,
        end > 0 ==> bytes[end - 1] != 0,
    ensures
        spec_strip_trailing_zeros(bytes) == bytes.take(end),
    decreases bytes.len(),
{
    if bytes.len() == end {
        assert(bytes.take(end) =~= bytes);
    } else {
        assert(bytes.last() == 0);
        lemma_strip_take(bytes.drop_last(), end);
        assert(bytes.drop_last().take(end) =~= bytes.take(end));
    }
}

/// What lossy UTF-8 decoding makes of arbitrary bytes. The result is a
/// function of the bytes alone; for valid UTF-8 the trusted wrapper
/// below pins it down exactly.
pub uninterp spec fn lossy_decode(bytes: Seq<u8>) -> Seq<char>;

/// Relies on String::from_utf8_lossy: the decoding depends on the bytes
/// alone, and valid UTF-8 input decodes without replacement.
#[verifier::external_body]
fn utf8_lossy(bytes: &[u8]) -> (r: String)
    ensures
        r@ == lossy_decode(bytes@),
        vstd::utf8::valid_utf8(bytes@) ==> r@ == vstd::utf8::decode_utf8(bytes@),
{
    String::from_utf8_lossy(bytes).into_owned()
}

/// The text carried by one command frame: the bytes before the trailing
/// zeros, decoded as UTF-8, lossily when invalid.
pub fn to_rust_string(buf: &[u8; 1024]) -> (r: String)
    ensures
        r@ == lossy_decode(spec_strip_trailing_zeros(buf@)),
        vstd::utf8::valid_utf8(spec_strip_trailing_zeros(buf@)) ==> r@ == vstd::utf8::decode_utf8(
            spec_strip_trailing_zeros(buf@),
        ),
{
    let mut end: usize = 1024;
    while end > 0 && buf[end - 1] == 0
        invariant
            end <= 1024,
            buf@.len() == 1024,
            forall|j: int| end <= j < 1024 ==> buf@[j] == 0,
        decreases end,
    {
        end = end - 1;
    }
    let mut prefix: Vec<u8> = Vec::new();
    let mut i: usize = 0;
    while i < end
        invariant
            end <= 1024,
            buf@.len() == 1024,
            i <= end,
            prefix@ =~= buf@.take(i as int),
        decreases end - i,
    {
        prefix.push(buf[i]);
        i = i + 1;
    }
    proof {
        lemma_strip_take(buf@, end as int);
    }
    utf8_lossy(prefix.as_slice())
}

/// One control-channel command.
#[derive(Clone, Copy, PartialEq, Eq, Structural, Debug)]
pub enum Command {
    /// Pure liveness probe; answered with `pong`.
    Ping,
    /// Full termination through the shutdown coordinator.
    Stop,
    /// Same shutdown sequence, but the client expects a new instance.
    Restart,
    /// Enroll the connection as a broadcast subscriber.
    Listen,
    /// Anything else; answered with `unknown`, no state change.
    Unknown,
}

/// The farewell notice broadcast to every subscriber right before its
/// connection is closed by the shutdown sequence.
pub fn farewell_text() -> (r: &'static str)
    ensures
        r@ == "Tschau :)"@,
{
    "Tschau :)"
}

/// The command that a frame's text spells.
pub open spec fn spec_parse_command(msg: Seq<char>) -> Command {
    if msg == "ping"@ {
        Command::Ping
    } else if msg == "stop"@ {
        Command::Stop
    } else if msg == "restart"@ {
        Command::Restart
    } else if msg == "listen"@ {
        Command::Listen
    } else {
        Command::Unknown
    }
}

/// Parses a frame's text into the command it spells.
pub fn parse_command(msg: &str) -> (c: Command)
    ensures
        c == spec_parse_command(msg@),
{
    if crate::text::str_eq(msg, "ping") {
        Command::Ping
    } else if crate::text::str_eq(msg, "stop") {
        Command::Stop
    } else if crate::text::str_eq(msg, "restart") {
        Command::Restart
    } else if crate::text::str_eq(msg, "listen") {
        Command::Listen
    } else {
        Command::Unknown
    }
}

/// What the connection handler must do for a command.
#[derive(Clone, Copy, PartialEq, Eq, Structural, Debug)]
pub enum HandlerAction {
    /// Write `pong` and close; no state changes.
    ReplyPong,
    /// Hand the connection to the shutdown coordinator; `ok` is written
    /// only once the coordinated sequence reaches its reply step.
    BeginShutdown,
    /// Acknowledge and keep the connection as a broadcast subscriber.
    EnrollListener,
    /// Write `unknown` and close; no state changes.
    ReplyUnknown,
}

/// The one action each command maps to.
pub open spec fn spec_dispatch(c: Command) -> HandlerAction {
    match c {
        Command::Ping => HandlerAction::ReplyPong,
        Command::Stop => HandlerAction::BeginShutdown,
        Command::Restart => HandlerAction::BeginShutdown,
        Command::Listen => HandlerAction::EnrollListener,
        Command::Unknown => HandlerAction::ReplyUnknown,
    }
}

/// Dispatches a command. A `ping` is always answered with `pong` and
/// touches no state; an unrecognized command is always answered with
/// `unknown` and touches no state.
pub fn dispatch(c: &Command) -> (a: HandlerAction)
    ensures
        a == spec_dispatch(*c),
{
    match c {
        Command::Ping => HandlerAction::ReplyPong,
        Command::Stop => HandlerAction::BeginShutdown,
        Command::Restart => HandlerAction::BeginShutdown,
        Command::Listen => HandlerAction::EnrollListener,
        Command::Unknown => HandlerAction::ReplyUnknown,
    }
}

/// The reply a command is answered with before any coordinated work:
/// `pong` for a ping, the enrolment greeting for `listen`, `unknown`
/// for an unrecognized command. `stop` and `restart` have none — their
/// `ok` may only follow the coordinated shutdown sequence.
pub open spec fn spec_immediate_reply(c: Command) -> Option<Seq<char>> {
    match c {
        Command::Ping => Some("pong"@),
        Command::Stop => None,
        Command::Restart => None,
        Command::Listen => Some("Hallo!"@),
        Command::Unknown => Some("unknown"@),
    }
}

/// The immediate reply for a command, if it has one.
pub fn immediate_reply(c: &Command) -> (r: Option<&'static str>)
    ensures
        (match r {
            Option::Some(s) => spec_immediate_reply(*c) == Some(s@),
            Option::None => spec_immediate_reply(*c) is None,
        }),
{
    match c {
        Command::Ping => Some("pong"),
        Command::Stop => None,
        Command::Restart => None,
        Command::Listen => Some("Hallo!"),
        Command::Unknown => Some("unknown"),
    }
}

} // verus!
