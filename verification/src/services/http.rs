//! What the API clients share: the HTTP client they are built on, and the
//! joining of a configured base URL with an endpoint path.

use vstd::prelude::*;

use crate::text::{chars_of, push_range};
use crate::time::Duration;

verus! {

/// The pooled HTTP client (`reqwest::Client`), carried through unchanged;
/// nothing about its contents is relied on.
#[verifier::external_type_specification]
#[verifier::external_body]
pub struct ExHttpClient(reqwest::Client);

/// A pooled HTTP client together with the request timeout it was built
/// with.
pub struct HttpClient {
    client: reqwest::Client,
    timeout: Duration,
}

impl HttpClient {
    /// The timeout, in nanoseconds, the client was built with.
    pub closed spec fn spec_timeout(&self) -> nat {
        self.timeout@
    }

    /// The underlying client.
    pub closed spec fn spec_client(&self) -> reqwest::Client {
        self.client
    }

    /// The underlying client requests are sent with.
    pub fn client(&self) -> (r: &reqwest::Client)
        ensures
            *r == self.spec_client(),
    {
        &self.client
    }

    /// The timeout every request is given.
    pub fn timeout(&self) -> (r: Duration)
        ensures
            r@ == self.spec_timeout(),
    {
        self.timeout
    }
}

/// `reqwest::Client::builder().timeout(..).build()`: a client whose every
/// request times out after `secs` seconds and `nanos` nanoseconds, which is
/// `timeout`; the client is kept with `timeout`. Building can fail (for
/// instance when no TLS backend can be initialized), so success is not
/// promised.
#[verifier::external_body]
fn build_timed_client(timeout: Duration, secs: u64, nanos: u32) -> (r: Result<
    HttpClient,
    reqwest::Error,
>)
    requires
        nanos < 1_000_000_000,
        secs * 1_000_000_000 + nanos == timeout@,
    ensures
        r matches Ok(h) ==> h.spec_timeout() == timeout@,
{
    match reqwest::Client::builder().timeout(std::time::Duration::new(secs, nanos)).build() {
        Ok(client) => Ok(HttpClient { client, timeout }),
        Err(e) => Err(e),
    }
}

/// An HTTP client whose requests time out after `timeout`. Building can
/// fail, so success is not promised.
pub(crate) fn build_http_client(timeout: Duration) -> (r: Result<HttpClient, reqwest::Error>)
    ensures
        r matches Ok(h) ==> h.spec_timeout() == timeout@,
{
    let secs = timeout.as_secs();
    let nanos = timeout.subsec_nanos();
    proof {
        vstd::arithmetic::div_mod::lemma_fundamental_div_mod(timeout@ as int, 1_000_000_000);
        vstd::arithmetic::div_mod::lemma_mod_bound(timeout@ as int, 1_000_000_000);
    }
    build_timed_client(timeout, secs, nanos)
}

/// `s` without its trailing `/` characters (`str::trim_end_matches('/')`).
pub open spec fn strip_trailing_slashes(s: Seq<char>) -> Seq<char>
    decreases s.len(),
{
    if s.len() > 0 && s.last() == '/' {
        strip_trailing_slashes(s.drop_last())
    } else {
        s
    }
}

/// `base` with its trailing slashes removed, followed by `path`.
pub open spec fn join_url(base: Seq<char>, path: Seq<char>) -> Seq<char> {
    strip_trailing_slashes(base) + path
}

/// Appends `base` without its trailing slashes.
pub fn push_base_url(out: &mut String, base: &str)
    ensures
        final(out)@ == old(out)@ + strip_trailing_slashes(base@),
{
    let chars = chars_of(base);
    let mut end = chars.len();
    proof {
        assert(chars@.take(end as int) =~= chars@);
    }
    while end > 0 && chars[end - 1] == '/'
        invariant
            end <= chars@.len(),
            chars@ == base@,
            strip_trailing_slashes(base@) == strip_trailing_slashes(chars@.take(end as int)),
        decreases end,
    {
        proof {
            assert(chars@.take(end - 1) =~= chars@.take(end as int).drop_last());
        }
        end -= 1;
    }
    proof {
        assert(chars@.subrange(0, end as int) =~= chars@.take(end as int));
    }
    push_range(out, &chars, 0, end);
}

/// Whether an HTTP status reports success: `200..=299`.
pub fn is_success_status(status: u16) -> (r: bool)
    ensures
        r == (200 <= status && status <= 299),
{
    200 <= status && status <= 299
}

/// What `String::from_utf8_lossy` makes of `bytes`: the text they encode,
/// with each invalid sequence replaced by U+FFFD.
pub uninterp spec fn utf8_lossy(bytes: Seq<u8>) -> Seq<char>;

/// `String::from_utf8_lossy(bytes).into_owned()`: the result depends on the
/// bytes alone and is named, not stated.
#[verifier::external_body]
fn from_utf8_lossy(bytes: &[u8]) -> (r: String)
    ensures
        r@ == utf8_lossy(bytes@),
{
    String::from_utf8_lossy(bytes).into_owned()
}

/// The message reported for a failed API request: the message found in the
/// error body when it could be read, otherwise the body itself as text.
pub fn api_error_message(parsed: Option<String>, body: &[u8]) -> (r: String)
    ensures
        r@ == match parsed {
            Some(m) => m@,
            None => utf8_lossy(body@),
        },
{
    match parsed {
        Some(m) => m,
        None => from_utf8_lossy(body),
    }
}

} // verus!
