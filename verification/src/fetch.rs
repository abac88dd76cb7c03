//! The range-fetch operation: one ranged GET, status validation, the
//! buffer-fill loop, and the success notification.

use vstd::prelude::*;
use crate::fill::copy_into;
use crate::notify::Notifier;
use crate::textfmt::{notification_message, notification_message_spec, range_header_value};
use crate::transport::{build_client, read_body_chunk, response_status, send_ranged_get};

verus! {

/// Idle connections kept alive per remote host, to amortize handshake cost
/// across repeated calls to the same host.
pub const MAX_IDLE_PER_HOST: usize = 20;

/// Upper bound, in seconds, on any single request, so a stalled request
/// fails fast instead of blocking its caller indefinitely.
pub const REQUEST_TIMEOUT_SECS: u64 = 10;

/// Why a fetch failed. The foreign boundary collapses all of these into one
/// negative sentinel; see `sentinel_of`.
#[derive(Clone, Copy, Debug, PartialEq, Eq, Structural)]
pub enum FetchError {
    /// The request never produced a response: bad URL, DNS, connect, TLS,
    /// timeout or send failure.
    Transport,
    /// The server answered with a status outside the 2xx range.
    Status,
    /// Reading the response body failed after a successful status.
    BodyRead,
}

/// Builds the long-lived, connection-pooling transport client that all
/// fetches share. The host constructs it once and passes it to every call
/// of `download_partial_file`.
pub fn new_transport_client() -> (r: Result<reqwest::blocking::Client, FetchError>) {
    match build_client(MAX_IDLE_PER_HOST, REQUEST_TIMEOUT_SECS) {
        Ok(client) => Ok(client),
        Err(_) => Err(FetchError::Transport),
    }
}

/// Accepts exactly the HTTP success statuses, 200 through 299; everything
/// else is a hard failure of the whole call, with no partial credit.
pub fn check_status(code: u16) -> (r: Result<(), FetchError>)
    ensures
        200 <= code <= 299 ==> r == Ok::<(), FetchError>(()),
        !(200 <= code <= 299) ==> r == Err::<(), FetchError>(FetchError::Status),
{
    if 200 <= code && code <= 299 {
        Ok(())
    } else {
        Err(FetchError::Status)
    }
}

/// Drains the response body into `buffer` by repeated bounded reads, each
/// aimed at the unfilled remainder, until the buffer is full or the stream
/// ends; an empty read is end-of-stream, not an error. Returns how many
/// bytes were written: they stand at the front of the buffer, and every
/// byte past them keeps its old value.
#[verifier::loop_isolation(false)]
fn drain_body(response: &mut reqwest::blocking::Response, buffer: &mut Vec<u8>) -> (r: Result<
    usize,
    FetchError,
>)
    ensures
        final(buffer)@.len() == old(buffer)@.len(),
        r matches Ok(n) ==> n <= old(buffer)@.len()
            && final(buffer)@.skip(n as int) == old(buffer)@.skip(n as int),
{
    let capacity = buffer.len();
    let mut total: usize = 0;
    while total < capacity
        invariant
            total <= capacity,
            capacity == buffer@.len(),
            buffer@.len() == old(buffer)@.len(),
            buffer@.skip(total as int) == old(buffer)@.skip(total as int),
        decreases capacity - total,
    {
        let space = capacity - total;
        let chunk = match read_body_chunk(response, space) {
            Ok(c) => c,
            Err(_) => {
                return Err(FetchError::BodyRead);
            },
        };
        if chunk.len() == 0 {
            break ;
        }
        let ghost before = buffer@;
        copy_into(buffer, total, &chunk, chunk.len());
        proof {
            assert(chunk@.take(chunk@.len() as int) =~= chunk@);
            assert(buffer@.skip((total + chunk@.len()) as int)
                =~= before.skip((total + chunk@.len()) as int));
            assert forall|j: int| total + chunk@.len() <= j < before.len() implies before[j]
                == old(buffer)@[j] by {
                assert(before.skip(total as int)[j - total]
                    == old(buffer)@.skip(total as int)[j - total]);
            }
            assert(before.skip((total + chunk@.len()) as int)
                =~= old(buffer)@.skip((total + chunk@.len()) as int));
        }
        total = total + chunk.len();
    }
    Ok(total)
}

/// Fetches the inclusive byte range `[start, end]` of the resource at `url`
/// over `client` and deposits it at the front of `buffer`, whose length is
/// the buffer's fixed capacity.
///
/// On success the result is the number of bytes written: at most the
/// buffer's length, with every byte past them unchanged, and the notifier
/// has received exactly one new message, the status line carrying `start`,
/// `end`, their difference and the buffer's length. On any failure — bad
/// URL, transport error, non-2xx status, body-read error — the result names
/// the cause, the notifier has received nothing, and only the buffer's
/// length is preserved.
pub fn download_partial_file<N: Notifier>(
    client: &reqwest::blocking::Client,
    url: &str,
    start: u64,
    end: u64,
    buffer: &mut Vec<u8>,
    notifier: &mut N,
) -> (r: Result<usize, FetchError>)
    ensures
        final(buffer)@.len() == old(buffer)@.len(),
        r matches Ok(n) ==> n <= old(buffer)@.len()
            && final(buffer)@.skip(n as int) == old(buffer)@.skip(n as int)
            && final(notifier).history() == old(notifier).history().push(
            notification_message_spec(start, end, old(buffer)@.len() as usize),
        ),
        r matches Err(_) ==> final(notifier).history() == old(notifier).history(),
{
    let range_value = range_header_value(start, end);
    let mut response = match send_ranged_get(client, url, &range_value) {
        Ok(resp) => resp,
        Err(_) => {
            return Err(FetchError::Transport);
        },
    };
    let code = response_status(&response);
    match check_status(code) {
        Ok(()) => {},
        Err(e) => {
            return Err(e);
        },
    }
    let total = match drain_body(&mut response, buffer) {
        Ok(t) => t,
        Err(e) => {
            return Err(e);
        },
    };
    let message = notification_message(start, end, buffer.len());
    notifier.notify(message);
    Ok(total)
}

/// The foreign boundary's return value: the byte count itself on success,
/// and the negative sentinel `-1` on every failure, undifferentiated.
pub fn sentinel_of(r: Result<usize, FetchError>) -> (code: i32)
    requires
        r matches Ok(n) ==> n <= 0x7fff_ffff,
    ensures
        r matches Ok(n) ==> code == n,
        r matches Err(_) ==> code == -1,
{
    match r {
        Ok(n) => n as i32,
        Err(_) => -1,
    }
}

} // verus!
