use vstd::prelude::*;

use crate::error::{ClientError, ClientErrorView};
use crate::request::{headers_view, push_header, stream_headers, stream_marker};

verus! {

pub open spec fn request_headers_spec(project: Seq<char>, api_key: Seq<char>, stream: bool) -> Seq<(Seq<char>, Seq<char>)> {
    stream_marker(stream) + seq![
        ("authorization"@, "Bearer "@ + api_key),
        ("x-goog-user-project"@, project),
        ("content-type"@, "application/json"@),
    ]
}

/// The headers of a request made with an API key: the streaming marker when
/// it streams, the key as a bearer credential, the project and the content
/// type.
pub fn request_headers(project: &str, api_key: &str, stream: bool) -> (r: Vec<(String, String)>)
    ensures
        headers_view(r@) == request_headers_spec(project@, api_key@, stream),
{
    let mut h = stream_headers(stream);
    let bearer = String::from_str("Bearer ").concat(api_key);
    push_header(&mut h, "authorization", bearer.as_str());
    push_header(&mut h, "x-goog-user-project", project);
    push_header(&mut h, "content-type", "application/json");
    assert(headers_view(h@) =~= request_headers_spec(project@, api_key@, stream));
    h
}

/// Chooses a client's API key: the one given to the builder wins over the
/// environment's; without either there is no client.
pub fn resolve_api_key(api_key: Option<String>, env_api_key: Option<String>) -> (r: Result<String, ClientError>)
    ensures
        match (api_key, env_api_key) {
            (Some(k), _) => r matches Ok(s) && s@ == k@,
            (None, Some(k)) => r matches Ok(s) && s@ == k@,
            (None, None) => r matches Err(e) && e@ == ClientErrorView::Auth("API key is required"@),
        },
{
    match api_key {
        Some(k) => Ok(k),
        None => match env_api_key {
            Some(k) => Ok(k),
            None => Err(ClientError::Auth(String::from_str("API key is required"))),
        },
    }
}

} // verus!
