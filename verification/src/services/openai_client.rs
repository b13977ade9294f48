//! The OpenAI Chat Completions client: the wire types, the client's
//! construction and the URL it posts to. Sending the request happens
//! outside this crate.

use vstd::prelude::*;

use crate::error::CoreError;
use crate::services::http::{build_http_client, HttpClient, join_url, push_base_url};
use crate::time::Duration;

verus! {

/// A single message in a chat completion request.
#[derive(Debug, Clone)]
pub struct ChatMessage {
    pub role: ChatRole,
    pub content: String,
}

#[derive(Debug, Clone, Copy, PartialEq, Eq, Structural)]
pub enum ChatRole {
    System,
    User,
    Assistant,
}

/// The kind of structured output requested.
#[derive(Debug, Clone, Copy, PartialEq, Eq, Structural)]
pub enum ResponseFormatType {
    JsonSchema,
}

#[derive(Debug, Clone)]
pub struct ChatCompletionResponse {
    pub id: String,
    pub choices: Vec<ChatCompletionChoice>,
    pub usage: Option<ChatCompletionUsage>,
}

#[derive(Debug, Clone)]
pub struct ChatCompletionChoice {
    pub index: u32,
    pub message: ChatCompletionResponseMessage,
    pub finish_reason: Option<String>,
}

#[derive(Debug, Clone)]
pub struct ChatCompletionResponseMessage {
    pub role: String,
    pub content: String,
}

#[derive(Debug, Clone, Copy, PartialEq, Eq, Structural)]
pub struct ChatCompletionUsage {
    pub prompt_tokens: u32,
    pub completion_tokens: u32,
    pub total_tokens: u32,
}

/// Client for the OpenAI-compatible `/chat/completions` endpoint.
pub struct OpenAiClient {
    http: HttpClient,
    base_url: String,
    api_key: String,
}

impl OpenAiClient {
    /// Builds a client for `base_url` that authenticates with `api_key` and
    /// times requests out after `timeout`. Fails only when the HTTP client
    /// cannot be built.
    pub fn new(base_url: String, api_key: String, timeout: Duration) -> (r: Result<
        Self,
        CoreError,
    >)
        ensures
            r matches Ok(c) ==> c.spec_base_url() == base_url@ && c.spec_api_key() == api_key@
                && c.spec_timeout() == timeout@,
            r matches Err(e) ==> e is OpenAiTransport,
    {
        match build_http_client(timeout) {
            Ok(http) => Ok(Self { http, base_url, api_key }),
            Err(e) => Err(CoreError::OpenAiTransport(e)),
        }
    }

    pub closed spec fn spec_base_url(&self) -> Seq<char> {
        self.base_url@
    }

    pub closed spec fn spec_api_key(&self) -> Seq<char> {
        self.api_key@
    }

    /// The HTTP client requests are sent with: the one built by `new`.
    pub fn http(&self) -> (r: &reqwest::Client)
        ensures
            *r == self.spec_http(),
    {
        self.http.client()
    }

    /// The HTTP client the client was built with.
    pub closed spec fn spec_http(&self) -> reqwest::Client {
        self.http.spec_client()
    }

    /// The timeout, in nanoseconds, every request is given.
    pub closed spec fn spec_timeout(&self) -> nat {
        self.http.spec_timeout()
    }

    /// The timeout every request is given: the one the client was built with.
    pub fn timeout(&self) -> (r: Duration)
        ensures
            r@ == self.spec_timeout(),
    {
        self.http.timeout()
    }

    /// The bearer token sent with each request.
    pub fn api_key(&self) -> (r: &str)
        ensures
            r@ == self.spec_api_key(),
    {
        self.api_key.as_str()
    }

    /// `{base_url}/chat/completions`, with the base URL's trailing slashes
    /// removed.
    pub fn completions_url(&self) -> (r: String)
        ensures
            r@ == join_url(self.spec_base_url(), "/chat/completions"@),
    {
        let mut url = String::new();
        push_base_url(&mut url, self.base_url.as_str());
        url.append("/chat/completions");
        url
    }
}

} // verus!
