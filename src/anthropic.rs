use vstd::prelude::*;

use crate::error::{ClientError, ClientErrorView};
use crate::request::{headers_view, push_header, stream_headers, stream_marker};

verus! {

/// Where the direct backend is reached unless told otherwise.
pub const DEFAULT_API_ENDPOINT: &'static str = "https://api.anthropic.com";

/// The protocol version the direct backend is asked for.
pub const DEFAULT_API_VERSION: &'static str = "2023-06-01";

/// The path of the messages endpoint, the same for streaming and not.
pub fn endpoint_url() -> (r: String)
    ensures
        r@ == "/v1/messages"@,
{
    String::from_str("/v1/messages")
}

/// The headers of a request to the direct backend, in order.
pub open spec fn request_headers_spec(api_key: Seq<char>, stream: bool) -> Seq<(Seq<char>, Seq<char>)> {
    stream_marker(stream) + seq![
        ("x-api-key"@, api_key),
        ("anthropic-version"@, DEFAULT_API_VERSION@),
        ("content-type"@, "application/json"@),
    ]
}

/// The headers of a request to the direct backend: the streaming marker
/// when it streams, the API key, the protocol version and the content type.
pub fn request_headers(api_key: &str, stream: bool) -> (r: Vec<(String, String)>)
    ensures
        headers_view(r@) == request_headers_spec(api_key@, stream),
{
    let mut h = stream_headers(stream);
    push_header(&mut h, "x-api-key", api_key);
    push_header(&mut h, "anthropic-version", DEFAULT_API_VERSION);
    push_header(&mut h, "content-type", "application/json");
    assert(headers_view(h@) =~= request_headers_spec(api_key@, stream));
    h
}

/// The settings a client is built with: its API key and its base URL.
pub struct Settings {
    pub api_key: String,
    pub base_url: String,
}

/// Chooses a client's settings: the key and URL given to the builder win
/// over those of the environment, and the URL falls back to the default.
/// Without a key, or without a transport, there is no client.
pub fn resolve_settings(
    api_key: Option<String>,
    env_api_key: Option<String>,
    base_url: Option<String>,
    env_base_url: Option<String>,
    has_http_client: bool,
) -> (r: Result<Settings, ClientError>)
    ensures
        match r {
            Ok(s) => has_http_client && s.api_key@ == (match api_key {
                Some(k) => k@,
                None => env_api_key->Some_0@,
            }) && (api_key is Some || env_api_key is Some) && s.base_url@ == (match (base_url, env_base_url) {
                (Some(u), _) => u@,
                (None, Some(u)) => u@,
                (None, None) => DEFAULT_API_ENDPOINT@,
            }),
            Err(e) => (api_key is None && env_api_key is None && e@ == ClientErrorView::Auth(
                "API key is required"@,
            )) || ((api_key is Some || env_api_key is Some) && !has_http_client && e@
                == ClientErrorView::Validation("http_client"@)),
        },
{
    let api_key = match api_key {
        Some(k) => k,
        None => match env_api_key {
            Some(k) => k,
            None => return Err(ClientError::Auth(String::from_str("API key is required"))),
        },
    };
    let base_url = match base_url {
        Some(u) => u,
        None => match env_base_url {
            Some(u) => u,
            None => String::from_str(DEFAULT_API_ENDPOINT),
        },
    };
    if !has_http_client {
        return Err(ClientError::Validation(String::from_str("http_client")));
    }
    Ok(Settings { api_key, base_url })
}

} // verus!
