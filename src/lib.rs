//! A client for an OpenAI-compatible chat-completion service.
//!
//! The library decides everything that can be decided from plain values: the
//! request body and headers, how a status or a decoded answer turns into a
//! result, and how a streamed body is cut into frames and fragments. Sending
//! and receiving are left to the caller.
use vstd::prelude::*;

pub mod config;
pub mod error;
pub mod models;
pub mod stream;

use crate::config::GptConfig;
use crate::error::GptError;
use crate::models::{GptRequest, GptResponse, Message};
use crate::stream::texts;

verus! {

/// A character that may stand in an HTTP header value: any but the control
/// characters, tab excepted. (Every character beyond ASCII encodes to bytes
/// from 128 up, which are accepted.)
pub open spec fn header_char_ok(c: char) -> bool {
    (c as u32 >= 32 && c as u32 != 127) || c == '\t'
}

pub open spec fn header_text_ok(s: Seq<char>) -> bool {
    forall|i: int| 0 <= i < s.len() ==> header_char_ok(#[trigger] s[i])
}

/// Relies on `reqwest::header::HeaderValue::from_str`, which accepts a string
/// exactly when each of its bytes is a tab or lies in 32..=255 other than 127.
#[verifier::external_body]
fn header_value_ok(s: &str) -> (r: bool)
    ensures
        r == header_text_ok(s@),
{
    reqwest::header::HeaderValue::from_str(s).is_ok()
}

/// The stop sequences as text, if there are any.
pub open spec fn stop_texts(stop: Option<Vec<String>>) -> Option<Seq<Seq<char>>> {
    match stop {
        Some(v) => Some(texts(v@)),
        None => None,
    }
}

fn copy_strings(v: &Vec<String>) -> (r: Vec<String>)
    ensures
        texts(r@) == texts(v@),
{
    let mut r: Vec<String> = Vec::new();
    let mut i: usize = 0;
    while i < v.len()
        invariant
            i <= v.len(),
            texts(r@) == texts(v@.subrange(0, i as int)),
        decreases v.len() - i,
    {
        let ghost before = r@;
        let c = v[i].clone();
        r.push(c);
        assert(v@.subrange(0, i as int + 1) =~= v@.subrange(0, i as int).push(v@[i as int]));
        assert(texts(r@) =~= texts(before).push(c@));
        assert(texts(r@) =~= texts(v@.subrange(0, i as int + 1)));
        i += 1;
    }
    assert(v@.subrange(0, v@.len() as int) =~= v@);
    r
}

/// Whether an HTTP status counts as success (200 to 299).
pub fn is_success_status(status_code: u16) -> (r: bool)
    ensures
        r == (200 <= status_code <= 299),
{
    200 <= status_code && status_code <= 299
}

/// The error for a response whose status is not a success, carrying its body
/// text, or `"Unknown error"` where the body could not be read.
pub fn api_error(status_code: u16, body: Option<String>) -> (r: GptError)
    ensures
        r matches GptError::ApiError { status_code: c, message: m } && c == status_code && m@ == (
        match body {
            Some(b) => b@,
            None => "Unknown error"@,
        }),
{
    let message = match body {
        Some(b) => b,
        None => String::from_str("Unknown error"),
    };
    GptError::ApiError { status_code, message }
}

/// The content of the first choice's complete message, if there is one.
pub open spec fn answer_text(r: GptResponse) -> Option<Seq<char>> {
    if r.choices@.len() > 0 {
        match r.choices@[0].message {
            Some(m) => Some(m.content@),
            None => None,
        }
    } else {
        None
    }
}

/// The result of a non-streaming exchange whose status was a success, given
/// how its body decoded: the first choice's message content, or a parse error.
pub fn answer_from(decoded: Result<GptResponse, String>) -> (r: Result<String, GptError>)
    ensures
        decoded matches Err(e) ==> r == Err::<String, GptError>(GptError::ParseError(e)),
        decoded matches Ok(resp) ==> match answer_text(resp) {
            Some(t) => r matches Ok(s) && s@ == t,
            None => r matches Err(GptError::ParseError(d)) && d@
                == "No response content available"@,
        },
{
    match decoded {
        Err(e) => Err(GptError::ParseError(e)),
        Ok(resp) => {
            if resp.choices.len() > 0 {
                match &resp.choices[0].message {
                    Some(m) => {
                        return Ok(m.content.clone());
                    },
                    None => {},
                }
            }
            Err(GptError::ParseError(String::from_str("No response content available")))
        },
    }
}

/// A configured client: where to send, with which credential and parameters.
pub struct GptClient {
    api_url: String,
    api_key: String,
    config: GptConfig,
}

impl GptClient {
    pub closed spec fn url_view(&self) -> Seq<char> {
        self.api_url@
    }

    pub closed spec fn key_view(&self) -> Seq<char> {
        self.api_key@
    }

    pub closed spec fn config_view(&self) -> GptConfig {
        self.config
    }

    pub fn builder() -> (r: GptClientBuilder)
        ensures
            r.api_url is None,
            r.api_key is None,
            r.config is None,
    {
        GptClientBuilder { api_url: None, api_key: None, config: None }
    }

    pub fn api_url(&self) -> (r: &String)
        ensures
            r@ == self.url_view(),
    {
        &self.api_url
    }

    pub fn config(&self) -> (r: &GptConfig)
        ensures
            *r == self.config_view(),
    {
        &self.config
    }

    /// The headers of a request, in order: the credential, the JSON content
    /// type, and for a stream the event-stream accept type. Fails when the
    /// credential cannot be a header value.
    pub fn build_headers(&self, stream: bool) -> (r: Result<Vec<(String, String)>, GptError>)
        ensures
            r is Err <==> !header_text_ok(self.key_view()),
            r matches Err(e) ==> e == GptError::HeaderError,
            r matches Ok(h) ==> {
                &&& h@.len() == (if stream { 3int } else { 2int })
                &&& h@[0].0@ == "api-key"@
                &&& h@[0].1@ == self.key_view()
                &&& h@[1].0@ == "Content-Type"@
                &&& h@[1].1@ == "application/json"@
                &&& stream ==> h@[2].0@ == "Accept"@ && h@[2].1@ == "text/event-stream"@
            },
    {
        if !header_value_ok(self.api_key.as_str()) {
            return Err(GptError::HeaderError);
        }
        let mut h: Vec<(String, String)> = Vec::new();
        h.push((String::from_str("api-key"), self.api_key.clone()));
        h.push((String::from_str("Content-Type"), String::from_str("application/json")));
        if stream {
            h.push((String::from_str("Accept"), String::from_str("text/event-stream")));
        }
        Ok(h)
    }

    /// The body of a request that sends `message` as the one user message,
    /// with the configured parameters.
    pub fn build_request(&self, message: &str, stream: bool) -> (r: GptRequest)
        ensures
            r.messages@.len() == 1,
            r.messages@[0].role@ == "user"@,
            r.messages@[0].content@ == message@,
            r.temperature == self.config_view().temperature,
            r.max_tokens == self.config_view().max_tokens,
            r.top_p == self.config_view().top_p,
            r.frequency_penalty == self.config_view().frequency_penalty,
            r.presence_penalty == self.config_view().presence_penalty,
            stop_texts(r.stop) == stop_texts(self.config_view().stop),
            r.stream == stream,
    {
        let stop = match &self.config.stop {
            Some(v) => Some(copy_strings(v)),
            None => None,
        };
        let mut messages: Vec<Message> = Vec::new();
        messages.push(Message { role: String::from_str("user"), content: String::from_str(message) });
        GptRequest {
            messages,
            temperature: self.config.temperature,
            max_tokens: self.config.max_tokens,
            top_p: self.config.top_p,
            frequency_penalty: self.config.frequency_penalty,
            presence_penalty: self.config.presence_penalty,
            stop,
            stream,
        }
    }
}

/// Collects the settings of a client; the URL and the credential are required.
pub struct GptClientBuilder {
    pub api_url: Option<String>,
    pub api_key: Option<String>,
    pub config: Option<GptConfig>,
}

impl GptClientBuilder {
    pub fn api_url(self, url: String) -> (r: Self)
        ensures
            r.api_url == Some(url),
            r.api_key == self.api_key,
            r.config == self.config,
    {
        GptClientBuilder { api_url: Some(url), ..self }
    }

    pub fn api_key(self, key: String) -> (r: Self)
        ensures
            r.api_key == Some(key),
            r.api_url == self.api_url,
            r.config == self.config,
    {
        GptClientBuilder { api_key: Some(key), ..self }
    }

    pub fn config(self, config: GptConfig) -> (r: Self)
        ensures
            r.config == Some(config),
            r.api_url == self.api_url,
            r.api_key == self.api_key,
    {
        GptClientBuilder { config: Some(config), ..self }
    }

    /// The client, or a configuration error naming the first missing setting
    /// (the URL before the credential). Without a configuration the defaults
    /// are used.
    pub fn build(self) -> (r: Result<GptClient, GptError>)
        ensures
            self.api_url is None ==> (r matches Err(GptError::ConfigError(d)) && d@
                == "API URL is required"@),
            self.api_url is Some && self.api_key is None ==> (r matches Err(
                GptError::ConfigError(d),
            ) && d@ == "API key is required"@),
            self.api_url is Some && self.api_key is Some ==> (r matches Ok(c) && c.url_view()
                == self.api_url->Some_0@ && c.key_view() == self.api_key->Some_0@ && match self.config {
                Some(cfg) => c.config_view() == cfg,
                None => c.config_view().is_default(),
            }),
    {
        let api_url = match self.api_url {
            Some(u) => u,
            None => {
                return Err(GptError::ConfigError(String::from_str("API URL is required")));
            },
        };
        let api_key = match self.api_key {
            Some(k) => k,
            None => {
                return Err(GptError::ConfigError(String::from_str("API key is required")));
            },
        };
        let config = match self.config {
            Some(c) => c,
            None => GptConfig::default(),
        };
        Ok(GptClient { api_url, api_key, config })
    }
}

} // verus!
