//! The ElevenLabs Text-to-Speech client: its construction and the request
//! URL it posts to. Sending the request happens outside this crate.

use vstd::prelude::*;

use crate::error::CoreError;
use crate::services::http::{build_http_client, HttpClient, join_url, push_base_url};
use crate::time::Duration;

verus! {

/// Client for the ElevenLabs `/text-to-speech/{voice_id}` endpoint.
pub struct ElevenLabsClient {
    http: HttpClient,
    base_url: String,
    api_key: String,
}

/// `{base_url}/text-to-speech/{voice_id}?output_format={output_format}`,
/// with the base URL's trailing slashes removed.
pub open spec fn speech_url(
    base_url: Seq<char>,
    voice_id: Seq<char>,
    output_format: Seq<char>,
) -> Seq<char> {
    join_url(base_url, "/text-to-speech/"@ + voice_id + "?output_format="@ + output_format)
}

impl ElevenLabsClient {
    /// Builds a client for `base_url` that authenticates with `api_key` and
    /// times requests out after `timeout`. Fails only when the HTTP client
    /// cannot be built.
    pub fn new(base_url: String, api_key: String, timeout: Duration) -> (r: Result<
        Self,
        CoreError,
    >)
        ensures
            r matches Ok(c) ==> c.spec_base_url() == base_url@ && c.spec_api_key() == api_key@
                && c.spec_timeout() == timeout@,
            r matches Err(e) ==> e is ElevenLabsTransport,
    {
        match build_http_client(timeout) {
            Ok(http) => Ok(Self { http, base_url, api_key }),
            Err(e) => Err(CoreError::ElevenLabsTransport(e)),
        }
    }

    pub closed spec fn spec_base_url(&self) -> Seq<char> {
        self.base_url@
    }

    pub closed spec fn spec_api_key(&self) -> Seq<char> {
        self.api_key@
    }

    /// The HTTP client requests are sent with: the one built by `new`.
    pub fn http(&self) -> (r: &reqwest::Client)
        ensures
            *r == self.spec_http(),
    {
        self.http.client()
    }

    /// The HTTP client the client was built with.
    pub closed spec fn spec_http(&self) -> reqwest::Client {
        self.http.spec_client()
    }

    /// The timeout, in nanoseconds, every request is given.
    pub closed spec fn spec_timeout(&self) -> nat {
        self.http.spec_timeout()
    }

    /// The timeout every request is given: the one the client was built with.
    pub fn timeout(&self) -> (r: Duration)
        ensures
            r@ == self.spec_timeout(),
    {
        self.http.timeout()
    }

    /// The configured base URL.
    pub fn base_url(&self) -> (r: &str)
        ensures
            r@ == self.spec_base_url(),
    {
        self.base_url.as_str()
    }

    /// The API key sent in the `xi-api-key` header.
    pub fn api_key(&self) -> (r: &str)
        ensures
            r@ == self.spec_api_key(),
    {
        self.api_key.as_str()
    }

    /// The URL that synthesizes speech with `voice_id`, encoded per
    /// `output_format`.
    pub fn speech_url(&self, voice_id: &str, output_format: &str) -> (r: String)
        ensures
            r@ == speech_url(self.spec_base_url(), voice_id@, output_format@),
    {
        let mut url = String::new();
        push_base_url(&mut url, self.base_url.as_str());
        url.append("/text-to-speech/");
        url.append(voice_id);
        url.append("?output_format=");
        url.append(output_format);
        assert(url@ =~= speech_url(self.spec_base_url(), voice_id@, output_format@));
        url
    }
}

} // verus!
