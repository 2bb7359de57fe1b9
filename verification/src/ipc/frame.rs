//! Framing of requests and responses, and the life of a connection.
//!
//! A frame is a length in four bytes, the most significant first, and that many
//! bytes of JSON.

use super::dispatch::MAX_METHOD_LEN;
use crate::text::{byte_len, byte_length, eq_ignore_ascii_case, same, same_ignoring_case, text_view};
use vstd::prelude::*;
use vstd::utf8::*;

verus! {

/// Shortest frame: `{}`.
pub const MIN_FRAME_SIZE: usize = 2;

/// Longest frame.
pub const MAX_FRAME_SIZE: usize = 16_777_216;

/// The number that four bytes stand for.
pub open spec fn number(header: Seq<u8>) -> int {
    ((header[0] * 256 + header[1]) * 256 + header[2]) * 256 + header[3]
}

/// What to do with the frame that a header announces.
pub enum FrameCheck {
    /// Shorter than any request: close the connection.
    TooSmall,
    /// Longer than the limit: close the connection.
    TooLarge,
    /// Read this many bytes.
    Accept(usize),
}

/// Whether a frame of this length is read.
pub open spec fn readable_length(n: int) -> bool {
    MIN_FRAME_SIZE <= n <= MAX_FRAME_SIZE
}

/// Judge the length of a frame.
pub fn check_frame(header: &[u8; 4]) -> (check: FrameCheck)
    ensures
        check is Accept <==> readable_length(number(header@)),
        match check {
            FrameCheck::TooSmall => number(header@) < MIN_FRAME_SIZE,
            FrameCheck::TooLarge => number(header@) > MAX_FRAME_SIZE,
            FrameCheck::Accept(n) => n == number(header@) && MIN_FRAME_SIZE <= n <= MAX_FRAME_SIZE,
        },
{
    let n: u64 = ((header[0] as u64 * 256 + header[1] as u64) * 256 + header[2] as u64) * 256
        + header[3] as u64;
    if n < MIN_FRAME_SIZE as u64 {
        FrameCheck::TooSmall
    } else if n > MAX_FRAME_SIZE as u64 {
        FrameCheck::TooLarge
    } else {
        FrameCheck::Accept(n as usize)
    }
}

/// The four bytes that stand for `n`.
pub open spec fn header_of(n: int) -> Seq<u8> {
    seq![
        (n / 16_777_216) as u8,
        (n / 65_536 % 256) as u8,
        (n / 256 % 256) as u8,
        (n % 256) as u8,
    ]
}

/// The response that stands in for one that could not be written.
pub open spec fn fallback_response() -> Seq<u8> {
    encode_utf8(
        "{\"jsonrpc\":\"2.0\",\"id\":0,\"error\":{\"code\":-32603,\"message\":\"internal serialization error\"}}"@,
    )
}

/// What goes into the frame of a response. An empty response is replaced by a fixed
/// one.
pub open spec fn framed_body(response: Seq<u8>) -> Seq<u8> {
    if response.len() == 0 {
        fallback_response()
    } else {
        response
    }
}

/// The frame of a response.
pub fn response_frame(response: &[u8]) -> (frame: Vec<u8>)
    requires
        response@.len() <= u32::MAX,
    ensures
        frame@ == header_of(framed_body(response@).len() as int) + framed_body(response@),
        ({
            let body = if response@.len() == 0 {
                fallback_response()
            } else {
                response@
            };
            frame@ == header_of(body.len() as int) + body
        }),
{
    let body: &[u8] = if response.len() == 0 {
        "{\"jsonrpc\":\"2.0\",\"id\":0,\"error\":{\"code\":-32603,\"message\":\"internal serialization error\"}}".as_bytes()
    } else {
        response
    };
    proof {
        let text = "{\"jsonrpc\":\"2.0\",\"id\":0,\"error\":{\"code\":-32603,\"message\":\"internal serialization error\"}}"@;
        reveal_strlit(
            "{\"jsonrpc\":\"2.0\",\"id\":0,\"error\":{\"code\":-32603,\"message\":\"internal serialization error\"}}",
        );
        assert(is_ascii_chars(text));
        is_ascii_chars_encode_utf8(text);
    }
    let n: usize = body.len();
    let mut frame: Vec<u8> = Vec::new();
    frame.push((n / 16_777_216) as u8);
    frame.push((n / 65_536 % 256) as u8);
    frame.push((n / 256 % 256) as u8);
    frame.push((n % 256) as u8);
    assert(frame@ =~= header_of(n as int));
    let mut i: usize = 0;
    while i < n
        invariant
            n == body@.len(),
            i <= n,
            frame@ == header_of(n as int) + body@.take(i as int),
        decreases n - i,
    {
        frame.push(body[i]);
        i = i + 1;
        assert(frame@ =~= header_of(n as int) + body@.take(i as int));
    }
    assert(body@.take(n as int) =~= body@);
    frame
}

/// The header of a frame tells its length.
pub proof fn header_tells_length(n: int)
    requires
        0 <= n <= u32::MAX,
    ensures
        header_of(n).len() == 4,
        number(header_of(n)) == n,
{
}

/// Whether a method name is longer than any that is served.
pub open spec fn overlong(method: Seq<char>) -> bool {
    byte_len(method) > MAX_METHOD_LEN
}

pub fn method_too_long(method: &str) -> (yes: bool)
    ensures
        yes == overlong(method@),
        yes == (byte_len(method@) > MAX_METHOD_LEN),
{
    byte_length(method) > MAX_METHOD_LEN
}

/// How a read from the connection ended.
#[derive(Debug, Clone, Copy, PartialEq, Eq, Structural)]
pub enum ReadEnd {
    Complete,
    /// The client closed the connection.
    Eof,
    Failed,
    TimedOut,
}

/// What the connection does next.
#[derive(Debug, Clone, Copy, PartialEq, Eq, Structural)]
pub enum ConnectionStep {
    Proceed,
    /// Close it quietly.
    Close,
    /// Close it and report the error.
    Fail,
}

/// Seconds without a request after which a connection is closed.
pub const CONNECTION_TIMEOUT_SECS: u64 = 60;

/// Seconds that a frame may take to arrive.
pub const READ_TIMEOUT_SECS: u64 = 30;

/// What follows on the header: a client may leave or fall idle between frames.
pub open spec fn header_step(end: ReadEnd) -> ConnectionStep {
    match end {
        ReadEnd::Complete => ConnectionStep::Proceed,
        ReadEnd::Eof => ConnectionStep::Close,
        ReadEnd::Failed => ConnectionStep::Fail,
        ReadEnd::TimedOut => ConnectionStep::Close,
    }
}

/// What follows on the payload: leaving in the middle of a frame is an error.
pub open spec fn payload_step(end: ReadEnd) -> ConnectionStep {
    match end {
        ReadEnd::Complete => ConnectionStep::Proceed,
        ReadEnd::Eof => ConnectionStep::Fail,
        ReadEnd::Failed => ConnectionStep::Fail,
        ReadEnd::TimedOut => ConnectionStep::Close,
    }
}

/// After the header was read: a client may leave or fall idle between frames.
pub fn after_header(end: ReadEnd) -> (step: ConnectionStep)
    ensures
        step == header_step(end),
        step == match end {
            ReadEnd::Complete => ConnectionStep::Proceed,
            ReadEnd::Eof => ConnectionStep::Close,
            ReadEnd::Failed => ConnectionStep::Fail,
            ReadEnd::TimedOut => ConnectionStep::Close,
        },
{
    match end {
        ReadEnd::Complete => ConnectionStep::Proceed,
        ReadEnd::Eof => ConnectionStep::Close,
        ReadEnd::Failed => ConnectionStep::Fail,
        ReadEnd::TimedOut => ConnectionStep::Close,
    }
}

/// After the payload was read: leaving in the middle of a frame is an error.
pub fn after_payload(end: ReadEnd) -> (step: ConnectionStep)
    ensures
        step == payload_step(end),
        step == match end {
            ReadEnd::Complete => ConnectionStep::Proceed,
            ReadEnd::Eof => ConnectionStep::Fail,
            ReadEnd::Failed => ConnectionStep::Fail,
            ReadEnd::TimedOut => ConnectionStep::Close,
        },
{
    match end {
        ReadEnd::Complete => ConnectionStep::Proceed,
        ReadEnd::Eof => ConnectionStep::Fail,
        ReadEnd::Failed => ConnectionStep::Fail,
        ReadEnd::TimedOut => ConnectionStep::Close,
    }
}

/// Attempts to create the pipe at start.
pub const PIPE_ATTEMPTS: u32 = 20;

/// Whether an attempt to create the pipe insists on being its owner. The later
/// half attaches to a pipe that an orphan holds.
pub open spec fn insists_on_owning(attempt: u32) -> bool {
    attempt < 10
}

pub fn wants_first_instance(attempt: u32) -> (first: bool)
    ensures
        first == insists_on_owning(attempt),
        first == (attempt < 10),
{
    attempt < 10
}

/// First wait between attempts to create the next pipe instance.
pub const FIRST_BACKOFF_MS: u64 = 100;

/// Longest wait between attempts to create the next pipe instance.
pub const MAX_BACKOFF_MS: u64 = 5000;

/// The wait after `backoff_ms`: twice as long, up to the limit.
pub open spec fn longer_wait(backoff_ms: u64) -> int {
    if 2 * backoff_ms > MAX_BACKOFF_MS {
        MAX_BACKOFF_MS as int
    } else {
        2 * backoff_ms
    }
}

pub fn next_backoff(backoff_ms: u64) -> (next: u64)
    requires
        backoff_ms <= MAX_BACKOFF_MS,
    ensures
        next == longer_wait(backoff_ms),
        next == if 2 * backoff_ms > MAX_BACKOFF_MS {
            MAX_BACKOFF_MS as int
        } else {
            2 * backoff_ms
        },
{
    let doubled: u64 = backoff_ms * 2;
    if doubled > MAX_BACKOFF_MS {
        MAX_BACKOFF_MS
    } else {
        doubled
    }
}

/// Whether the environment switches the identity check off.
pub open spec fn check_disabled(value: Option<Seq<char>>) -> bool {
    value matches Some(v) && (v == "1"@ || same_ignoring_case(v, "true"@))
}

pub fn client_check_disabled(value: Option<&str>) -> (disabled: bool)
    ensures
        disabled == check_disabled(text_view(value)),
{
    match value {
        Some(v) => same(v, "1") || eq_ignore_ascii_case(v, "true"),
        None => false,
    }
}

/// A frame of two bytes to sixteen megabytes is read, and no other.
pub proof fn frames_have_their_limits(n: int)
    ensures
        readable_length(n) <==> 2 <= n <= 16 * 1024 * 1024,
{
}

/// The four bytes of a header stand for a number, the most significant first.
pub proof fn header_is_big_endian(header: Seq<u8>)
    ensures
        number(header) == 16_777_216 * header[0] + 65_536 * header[1] + 256 * header[2]
            + header[3],
{
}

/// A response goes out as it is, and never as an empty frame.
pub proof fn responses_go_out_whole(response: Seq<u8>)
    ensures
        response.len() > 0 ==> framed_body(response) == response,
        response.len() == 0 ==> framed_body(response) == encode_utf8(
            "{\"jsonrpc\":\"2.0\",\"id\":0,\"error\":{\"code\":-32603,\"message\":\"internal serialization error\"}}"@,
        ),
{
}

/// A method name of more than 64 bytes is too long.
pub proof fn long_names_are_refused(method: Seq<char>)
    ensures
        overlong(method) <==> byte_len(method) > 64,
{
}

/// A connection goes on only after a complete read; to leave between two frames is
/// fine, in the middle of one it is an error, and one that falls idle is closed.
pub proof fn connection_goes_on_after_a_whole_read(end: ReadEnd)
    ensures
        header_step(end) is Proceed <==> end is Complete,
        payload_step(end) is Proceed <==> end is Complete,
        end is Failed ==> header_step(end) is Fail && payload_step(end) is Fail,
        end is TimedOut ==> header_step(end) is Close && payload_step(end) is Close,
        end is Eof ==> header_step(end) is Close && payload_step(end) is Fail,
{
}

/// The first ten attempts insist on owning the pipe.
pub proof fn first_attempts_insist(attempt: u32)
    ensures
        insists_on_owning(attempt) <==> attempt <= 9,
{
}

/// The wait doubles up to five seconds, and never gets shorter.
pub proof fn wait_doubles_up_to_five_seconds(backoff_ms: u64)
    requires
        backoff_ms <= 5000,
    ensures
        backoff_ms <= 2500 ==> longer_wait(backoff_ms) == 2 * backoff_ms,
        backoff_ms > 2500 ==> longer_wait(backoff_ms) == 5000,
        longer_wait(backoff_ms) >= backoff_ms,
{
}

/// The identity check is switched off by a one or by `true` in any case, and by
/// nothing else.
pub proof fn check_is_on_by_default(value: Option<Seq<char>>)
    ensures
        value is None ==> !check_disabled(value),
        value matches Some(v) ==> (check_disabled(value) <==> v == "1"@ || same_ignoring_case(
            v,
            "true"@,
        )),
{
}

} // verus!
