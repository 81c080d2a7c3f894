//! The control channel between host and guest: the handshake that opens it
//! over a Unix socket, the time a call may take, and the outputs as text.
//!
//! The side that opens the channel writes `CONNECT`, a space, the port in
//! decimal and a newline. The other side answers `OK`, a space, the port it
//! assigned and a newline. Both lines are checked to the last byte.

use vstd::prelude::*;
use vstd::utf8::{decode_utf8, valid_utf8};
use crate::run::RunError;
use crate::service::Output;
use crate::span::Span;
use crate::text::{
    decimal_bytes,
    decimal_digits,
    lemma_digits_round_trip,
    lemma_u32_digits_len,
    parse_decimal,
    parse_decimal_spec,
    same_bytes,
};

verus! {

/// Seconds that a call may take beyond its two phase limits.
pub const DEADLINE_SLACK_SECS: u64 = 5;

/// The longest handshake line, in bytes; a reader need not read past it.
pub const MAX_LINE: usize = 19;

/// A violation of the handshake.
#[derive(Debug, Clone, Copy, PartialEq, Eq, Structural)]
pub enum ProtocolError {
    /// The opening line is not a well-formed `CONNECT` request.
    MalformedConnect,
    /// The opening line asks for a port that nothing serves.
    UnknownPort,
    /// The answer is not a well-formed `OK` acknowledgement.
    MalformedAck,
}

/// The bytes of `CONNECT` and a space.
pub open spec fn connect_prefix() -> Seq<u8> {
    seq![67u8, 79u8, 78u8, 78u8, 69u8, 67u8, 84u8, 32u8]
}

/// The bytes of `OK` and a space.
pub open spec fn ack_prefix() -> Seq<u8> {
    seq![79u8, 75u8, 32u8]
}

/// A handshake line: a keyword, a number in decimal, a newline.
pub open spec fn token_line(prefix: Seq<u8>, n: u32) -> Seq<u8> {
    prefix + decimal_digits(n as nat) + seq![10u8]
}

/// The digits of a handshake line are what lies between keyword and newline.
proof fn lemma_line_digits(prefix: Seq<u8>, n: u32)
    ensures
        token_line(prefix, n).len() == prefix.len() + decimal_digits(n as nat).len() + 1,
        decimal_digits(n as nat).len() >= 1,
        token_line(prefix, n).subrange(prefix.len() as int, token_line(prefix, n).len() - 1)
            == decimal_digits(n as nat),
        parse_decimal_spec(decimal_digits(n as nat), u32::MAX as u64) == Some(n as u64),
{
    lemma_digits_round_trip(n as nat);
    let line = token_line(prefix, n);
    assert(line.subrange(prefix.len() as int, line.len() - 1) =~= decimal_digits(n as nat));
}

/// Two handshake lines with one keyword are equal only for one number.
pub proof fn lemma_line_names_one_number(prefix: Seq<u8>, a: u32, b: u32)
    requires
        token_line(prefix, a) == token_line(prefix, b),
    ensures
        a == b,
{
    lemma_line_digits(prefix, a);
    lemma_line_digits(prefix, b);
}

/// Writes a handshake line.
fn write_line(prefix: &[u8], n: u32) -> (r: Vec<u8>)
    ensures
        r@ == token_line(prefix@, n),
{
    let mut line: Vec<u8> = Vec::new();
    let mut i: usize = 0;
    while i < prefix.len()
        invariant
            i <= prefix@.len(),
            line@ == prefix@.subrange(0, i as int),
        decreases prefix@.len() - i,
    {
        line.push(prefix[i]);
        i = i + 1;
        assert(line@ =~= prefix@.subrange(0, i as int));
    }
    assert(line@ =~= prefix@);
    let mut digits = decimal_bytes(n as u64);
    line.append(&mut digits);
    line.push(10u8);
    assert(line@ =~= token_line(prefix@, n));
    line
}

/// Reads a handshake line: the number it carries, or `None` where the bytes
/// are not exactly a line with this keyword.
fn read_line(prefix: &[u8], line: &[u8]) -> (r: Option<u32>)
    requires
        prefix@.len() <= 16,
    ensures
        r matches Some(n) ==> line@ == token_line(prefix@, n),
        r is None ==> forall|n: u32| line@ != #[trigger] token_line(prefix@, n),
{
    let plen: usize = prefix.len();
    if line.len() < plen + 2 {
        proof {
            assert forall|n: u32| line@ != #[trigger] token_line(prefix@, n) by {
                lemma_line_digits(prefix@, n);
            }
        }
        return None;
    }
    match parse_decimal(line, plen, line.len() - 1, 0xffff_ffff) {
        None => {
            proof {
                assert forall|n: u32| line@ != #[trigger] token_line(prefix@, n) by {
                    lemma_line_digits(prefix@, n);
                }
            }
            None
        },
        Some(v) => {
            let n: u32 = v as u32;
            let written = write_line(prefix, n);
            if same_bytes(written.as_slice(), line) {
                Some(n)
            } else {
                proof {
                    assert forall|m: u32| line@ != #[trigger] token_line(prefix@, m) by {
                        lemma_line_digits(prefix@, m);
                    }
                }
                None
            }
        },
    }
}

/// The keyword of the opening line.
fn connect_keyword() -> (r: Vec<u8>)
    ensures
        r@ == connect_prefix(),
{
    let mut v: Vec<u8> = Vec::new();
    v.push(67u8);
    v.push(79u8);
    v.push(78u8);
    v.push(78u8);
    v.push(69u8);
    v.push(67u8);
    v.push(84u8);
    v.push(32u8);
    assert(v@ =~= connect_prefix());
    v
}

/// The keyword of the acknowledgement.
fn ack_keyword() -> (r: Vec<u8>)
    ensures
        r@ == ack_prefix(),
{
    let mut v: Vec<u8> = Vec::new();
    v.push(79u8);
    v.push(75u8);
    v.push(32u8);
    assert(v@ =~= ack_prefix());
    v
}

/// The line that asks for a channel to `port`.
pub fn connect_line(port: u32) -> (r: Vec<u8>)
    ensures
        r@ == token_line(connect_prefix(), port),
        r@.len() <= MAX_LINE,
{
    proof {
        lemma_u32_digits_len(port);
    }
    let keyword = connect_keyword();
    write_line(keyword.as_slice(), port)
}

/// The line that grants a channel and names the port assigned to it.
pub fn ack_line(assigned: u32) -> (r: Vec<u8>)
    ensures
        r@ == token_line(ack_prefix(), assigned),
        r@.len() <= MAX_LINE,
{
    proof {
        lemma_u32_digits_len(assigned);
    }
    let keyword = ack_keyword();
    write_line(keyword.as_slice(), assigned)
}

/// No well-formed handshake line is longer than `MAX_LINE` bytes, so a
/// reader that stops there has seen every line that can be accepted.
pub proof fn lemma_lines_are_short(n: u32)
    ensures
        token_line(connect_prefix(), n).len() <= MAX_LINE,
        token_line(ack_prefix(), n).len() <= MAX_LINE,
{
    lemma_u32_digits_len(n);
}

/// Checks the opening line of a peer. It is accepted, with the port it asks
/// for, exactly when it is the line that `connect_line` writes for that port;
/// any other bytes are rejected, and no channel may then be set up.
pub fn accept_connect(line: &[u8]) -> (r: Result<u32, ProtocolError>)
    ensures
        r matches Ok(port) ==> line@ == token_line(connect_prefix(), port) && line@.len()
            <= MAX_LINE,
        r matches Err(e) ==> e == ProtocolError::MalformedConnect && forall|port: u32|
            line@ != #[trigger] token_line(connect_prefix(), port),
{
    let keyword = connect_keyword();
    match read_line(keyword.as_slice(), line) {
        Some(port) => {
            proof {
                lemma_lines_are_short(port);
            }
            Ok(port)
        },
        None => Err(ProtocolError::MalformedConnect),
    }
}

/// Checks the peer's answer to an opening line. It is accepted, with the
/// assigned port, exactly when it is the line that `ack_line` writes for that
/// port: a reply that merely starts with `OK` is rejected.
pub fn check_ack(reply: &[u8]) -> (r: Result<u32, ProtocolError>)
    ensures
        r matches Ok(assigned) ==> reply@ == token_line(ack_prefix(), assigned) && reply@.len()
            <= MAX_LINE,
        r matches Err(e) ==> e == ProtocolError::MalformedAck && forall|assigned: u32|
            reply@ != #[trigger] token_line(ack_prefix(), assigned),
{
    let keyword = ack_keyword();
    match read_line(keyword.as_slice(), reply) {
        Some(assigned) => {
            proof {
                lemma_lines_are_short(assigned);
            }
            Ok(assigned)
        },
        None => Err(ProtocolError::MalformedAck),
    }
}

/// What the serving side does with a peer's opening line.
pub open spec fn answer_connect_spec(line: Seq<u8>, served: u32, assigned: u32) -> Result<
    Seq<u8>,
    ProtocolError,
> {
    if line == token_line(connect_prefix(), served) {
        Ok(token_line(ack_prefix(), assigned))
    } else if exists|port: u32| line == #[trigger] token_line(connect_prefix(), port) {
        Err(ProtocolError::UnknownPort)
    } else {
        Err(ProtocolError::MalformedConnect)
    }
}

/// Answers a peer's opening line on the side that serves `served`. The
/// channel is granted, with the acknowledgement to send back, exactly when
/// the line is the request for that port. A well-formed request for another
/// port and a malformed line are both refused, each with its own error, and
/// nothing is to be sent.
pub fn answer_connect(line: &[u8], served: u32, assigned: u32) -> (r: Result<
    Vec<u8>,
    ProtocolError,
>)
    ensures
        match answer_connect_spec(line@, served, assigned) {
            Ok(ack) => r matches Ok(bytes) && bytes@ == ack,
            Err(e) => r == Err::<Vec<u8>, ProtocolError>(e),
        },
{
    match accept_connect(line) {
        Err(e) => Err(e),
        Ok(port) => {
            if port == served {
                Ok(ack_line(assigned))
            } else {
                proof {
                    if line@ == token_line(connect_prefix(), served) {
                        lemma_line_names_one_number(connect_prefix(), port, served);
                    }
                }
                Err(ProtocolError::UnknownPort)
            }
        },
    }
}

/// Whether a reader that has `line` so far must go on reading: the line has
/// no newline yet and is still shorter than the longest line there is.
pub fn needs_more(line: &[u8]) -> (r: bool)
    ensures
        r == (line@.len() < MAX_LINE && (line@.len() == 0 || line@[line@.len() - 1] != 10u8)),
{
    let n: usize = line.len();
    n < MAX_LINE && (n == 0 || line[n - 1] != 10u8)
}

/// The time that one call may take before the caller gives up on it: both
/// phase limits and the slack. `None` where the sum does not fit.
pub fn call_budget(compile_timeout: Span, run_timeout: Span) -> (r: Option<Span>)
    requires
        compile_timeout.wf(),
        run_timeout.wf(),
    ensures
        r is Some <==> compile_timeout.total_nanos() + run_timeout.total_nanos() + 5
            * 1_000_000_000 < (u64::MAX as nat + 1) * 1_000_000_000,
        r matches Some(budget) ==> budget.wf() && budget.total_nanos()
            == compile_timeout.total_nanos() + run_timeout.total_nanos() + 5 * 1_000_000_000,
{
    match compile_timeout.checked_add(run_timeout) {
        None => None,
        Some(phases) => phases.checked_add(Span::from_secs(DEADLINE_SLACK_SECS)),
    }
}

/// `String::from_utf8` of the standard library: the bytes as text where they
/// are valid UTF-8, the text being what they decode to; nothing otherwise.
#[verifier::external_body]
fn utf8_text(bytes: Vec<u8>) -> (r: Option<String>)
    ensures
        r is Some <==> valid_utf8(bytes@),
        r matches Some(s) ==> s@ == decode_utf8(bytes@),
{
    String::from_utf8(bytes).ok()
}

/// What both outputs are as text.
pub open spec fn decode_output_spec(output: Output) -> Result<(Seq<char>, Seq<char>), RunError> {
    if valid_utf8(output.0@) && valid_utf8(output.1@) {
        Ok((decode_utf8(output.0@), decode_utf8(output.1@)))
    } else {
        Err(RunError::OutputUtf8Error)
    }
}

/// Turns both outputs into text for a caller that needs text. Either output
/// that is not valid UTF-8 fails the whole request.
pub fn decode_output(output: Output) -> (r: Result<(String, String), RunError>)
    ensures
        match decode_output_spec(output) {
            Ok(texts) => r matches Ok(got) && got.0@ == texts.0 && got.1@ == texts.1,
            Err(e) => r == Err::<(String, String), RunError>(e),
        },
{
    let (stdout, stderr) = output;
    match utf8_text(stdout) {
        None => Err(RunError::OutputUtf8Error),
        Some(out) => match utf8_text(stderr) {
            None => Err(RunError::OutputUtf8Error),
            Some(err) => Ok((out, err)),
        },
    }
}

} // verus!
