//! The OpenAI-compatible transcription API: which requests are made and how
//! the server's answer is read.  Sending the request is left to the caller.

use vstd::prelude::*;
use crate::text::{
    concat_str, option_view, result_view, spec_utf8_lossy, starts_with, str_chars, str_starts_with,
    string_from_chars, trim_end_char, utf8_lossy,
};

verus! {

/// The base URL uses the `http` or `https` scheme.
pub open spec fn spec_valid_base_url(base_url: Seq<char>) -> bool {
    starts_with(base_url, "http://"@) || starts_with(base_url, "https://"@)
}

/// The transcription endpoint below `base_url`: trailing slashes of the
/// base are dropped before the path is appended.
pub open spec fn spec_transcriptions_url(base_url: Seq<char>) -> Seq<char> {
    trim_end_char(base_url, '/') + "/audio/transcriptions"@
}

/// The bearer token to send: none for an empty key.
pub open spec fn spec_bearer_token(api_key: Seq<char>) -> Option<Seq<char>> {
    if api_key.len() == 0 {
        None
    } else {
        Some(api_key)
    }
}

/// The message for a base URL that is not HTTP(S).
pub open spec fn invalid_url_message() -> Seq<char> {
    "无效的 API URL"@
}

/// What `serde_json::from_slice::<serde_json::Value>` makes of `body`: on
/// success, the string in its `text` field (if it has one) and the value
/// printed back as JSON; `None` when `body` is not JSON.
pub uninterp spec fn spec_json_text_field(body: Seq<u8>) -> Option<(Option<Seq<char>>, Seq<char>)>;

/// Parses `body` with `serde_json::from_slice` into a `serde_json::Value`
/// and reads its `text` field as a string.  The contract claims only that
/// the result is the one serde_json computes from `body`.
#[verifier::external_body]
fn json_text_field(body: &[u8]) -> (r: Option<(Option<String>, String)>)
    ensures
        match r {
            Some((text, shown)) => spec_json_text_field(body@) == Some((option_view(text), shown@)),
            None => spec_json_text_field(body@) is None,
        },
{
    match serde_json::from_slice::<serde_json::Value>(body) {
        Ok(v) => Some((v["text"].as_str().map(|s| s.to_string()), v.to_string())),
        Err(_) => None,
    }
}

/// The message for an answer whose body is not JSON: the HTTP client's
/// decode error, which names no detail.
pub open spec fn json_error_message() -> Seq<char> {
    "JSON 解析错误：error decoding response body"@
}

/// What the client makes of the server's answer with HTTP status `status`
/// (printed as `status_line`, e.g. `404 Not Found`) and body `body`.
pub open spec fn spec_read_response(status: u16, status_line: Seq<char>, body: Seq<u8>) -> Result<
    Seq<char>,
    Seq<char>,
> {
    if !(200 <= status <= 299) {
        Err("API 错误 "@ + status_line + "："@ + spec_utf8_lossy(body))
    } else {
        match spec_json_text_field(body) {
            None => Err(json_error_message()),
            Some((Some(t), _)) => Ok(t),
            Some((None, shown)) => Err("响应中没有 'text' 字段："@ + shown),
        }
    }
}

/// Trailing slashes of the base URL do not change the endpoint.
pub proof fn lemma_trailing_slash_ignored(base_url: Seq<char>)
    ensures
        spec_transcriptions_url(base_url.push('/')) == spec_transcriptions_url(base_url),
{
    assert(base_url.push('/').drop_last() =~= base_url);
}

/// The endpoint always ends with the transcription path.
pub proof fn lemma_endpoint_suffix(base_url: Seq<char>)
    ensures
        spec_transcriptions_url(base_url).subrange(
            spec_transcriptions_url(base_url).len() - "/audio/transcriptions"@.len(),
            spec_transcriptions_url(base_url).len() as int,
        ) == "/audio/transcriptions"@,
{
    let u = spec_transcriptions_url(base_url);
    let suffix = "/audio/transcriptions"@;
    assert(u.subrange(u.len() - suffix.len(), u.len() as int) =~= suffix);
}

/// A transcription request: endpoint, optional bearer token, model name.
pub struct TranscriptionRequest {
    pub url: String,
    pub bearer: Option<String>,
    pub model: String,
}

/// The base URL uses the `http` or `https` scheme.
pub fn is_valid_base_url(base_url: &str) -> (r: bool)
    ensures
        r == spec_valid_base_url(base_url@),
{
    str_starts_with(base_url, "http://") || str_starts_with(base_url, "https://")
}

/// The transcription endpoint below `base_url`.
pub fn transcriptions_url(base_url: &str) -> (r: String)
    ensures
        r@ == spec_transcriptions_url(base_url@),
{
    let chars = str_chars(base_url);
    let mut n = chars.len();
    proof {
        assert(chars@.take(n as int) =~= chars@);
    }
    while n > 0 && chars[n - 1] == '/'
        invariant
            n <= chars.len(),
            trim_end_char(chars@, '/') == trim_end_char(chars@.take(n as int), '/'),
        decreases n,
    {
        proof {
            assert(chars@.take(n as int).drop_last() =~= chars@.take(n - 1));
        }
        n = n - 1;
    }
    let mut out: Vec<char> = Vec::new();
    let mut k: usize = 0;
    while k < n
        invariant
            k <= n <= chars.len(),
            out@ == chars@.take(k as int),
        decreases n - k,
    {
        out.push(chars[k]);
        k = k + 1;
        proof {
            assert(out@ =~= chars@.take(k as int));
        }
    }
    proof {
        assert(trim_end_char(chars@.take(n as int), '/') == chars@.take(n as int));
    }
    let head = string_from_chars(out.as_slice());
    concat_str(head.as_str(), "/audio/transcriptions")
}

/// The bearer token to send for `api_key` (see [`spec_bearer_token`]).
pub fn bearer_token(api_key: &str) -> (r: Option<String>)
    ensures
        option_view(r) == spec_bearer_token(api_key@),
{
    if str_chars(api_key).len() == 0 {
        None
    } else {
        Some(String::from_str(api_key))
    }
}

/// The request for transcribing with `model` at the server `base_url`,
/// refused when the base URL is not HTTP(S).
pub fn prepare_request(base_url: &str, api_key: &str, model: &str) -> (r: Result<
    TranscriptionRequest,
    String,
>)
    ensures
        match r {
            Ok(req) => {
                &&& spec_valid_base_url(base_url@)
                &&& req.url@ == spec_transcriptions_url(base_url@)
                &&& option_view(req.bearer) == spec_bearer_token(api_key@)
                &&& req.model@ == model@
            },
            Err(e) => !spec_valid_base_url(base_url@) && e@ == invalid_url_message(),
        },
{
    if !is_valid_base_url(base_url) {
        return Err(String::from_str("无效的 API URL"));
    }
    Ok(
        TranscriptionRequest {
            url: transcriptions_url(base_url),
            bearer: bearer_token(api_key),
            model: String::from_str(model),
        },
    )
}

/// The transcribed text from the server's answer (see [`spec_read_response`]).
pub fn read_response(status: u16, status_line: &str, body: &[u8]) -> (r: Result<String, String>)
    ensures
        result_view(r) == spec_read_response(status, status_line@, body@),
{
    if !(200 <= status && status <= 299) {
        let head = concat_str("API 错误 ", status_line);
        let head = concat_str(head.as_str(), "：");
        let text = utf8_lossy(body);
        return Err(concat_str(head.as_str(), text.as_str()));
    }
    match json_text_field(body) {
        None => Err(String::from_str("JSON 解析错误：error decoding response body")),
        Some((Some(t), _)) => Ok(t),
        Some((None, shown)) => Err(concat_str("响应中没有 'text' 字段：", shown.as_str())),
    }
}

} // verus!
