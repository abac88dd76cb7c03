//! The HTTP transport capability, held behind trusted declarations: the
//! connection-pooling client, the ranged GET request, and the bounded reads
//! that drain a response body. Everything the transport returns depends on
//! the network, so the contracts here state only what holds of every
//! outcome; the verified code around them does the rest.

use vstd::prelude::*;

verus! {

#[verifier::external_type_specification]
#[verifier::external_body]
pub struct ExClient(reqwest::blocking::Client);

#[verifier::external_type_specification]
#[verifier::external_body]
pub struct ExResponse(reqwest::blocking::Response);

#[verifier::external_type_specification]
#[verifier::external_body]
pub struct ExReqwestError(reqwest::Error);

#[verifier::external_type_specification]
#[verifier::external_body]
pub struct ExIoError(std::io::Error);

/// Relies on reqwest::blocking::ClientBuilder: pool_max_idle_per_host caps
/// the idle connections kept alive per remote host, timeout bounds every
/// request on the client, and build returns the configured client or a
/// builder error. The client's connection pool is safe for concurrent use.
#[verifier::external_body]
pub(crate) fn build_client(max_idle_per_host: usize, timeout_secs: u64) -> (r: Result<
    reqwest::blocking::Client,
    reqwest::Error,
>) {
    reqwest::blocking::Client::builder()
        .pool_max_idle_per_host(max_idle_per_host)
        .timeout(std::time::Duration::from_secs(timeout_secs))
        .build()
}

/// Relies on reqwest::blocking::Client::get, RequestBuilder::header and
/// RequestBuilder::send: issues one GET for `url` carrying `range_value` in
/// the Range header, and returns the live response once its headers arrive,
/// or the transport error (bad URL, connect, timeout, send) that stopped it.
#[verifier::external_body]
pub(crate) fn send_ranged_get(
    client: &reqwest::blocking::Client,
    url: &str,
    range_value: &Vec<u8>,
) -> (r: Result<reqwest::blocking::Response, reqwest::Error>) {
    client.get(url).header(reqwest::header::RANGE, range_value.as_slice()).send()
}

/// Relies on reqwest::blocking::Response::status and
/// http::StatusCode::as_u16: the numeric HTTP status of the response.
#[verifier::external_body]
pub(crate) fn response_status(response: &reqwest::blocking::Response) -> (code: u16) {
    response.status().as_u16()
}

/// Relies on the std::io::Read impl of reqwest::blocking::Response: one
/// bounded read from the response body. A successful read hands back at
/// most `max` bytes; an empty result signals end-of-stream.
#[verifier::external_body]
pub(crate) fn read_body_chunk(response: &mut reqwest::blocking::Response, max: usize) -> (r:
    Result<Vec<u8>, std::io::Error>)
    ensures
        r matches Ok(chunk) ==> chunk@.len() <= max,
{
    let mut chunk: Vec<u8> = vec![0u8; max];
    match std::io::Read::read(response, &mut chunk) {
        Ok(n) => {
            chunk.truncate(n);
            Ok(chunk)
        },
        Err(e) => Err(e),
    }
}

} // verus!
