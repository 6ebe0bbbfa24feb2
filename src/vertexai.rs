use vstd::prelude::*;

use crate::error::{ClientError, ClientErrorView};
use crate::json::{entries_view, object, push_entry, text, JsonValue, JsonView};
use crate::request::{
    add_shared, headers_view, push_header, stream_headers, stream_marker, submittable,
    CreateMessageRequestWithStream,
};

verus! {

/// The protocol version the gateway is asked for, in every body.
pub const DEFAULT_API_VERSION: &'static str = "vertex-2023-10-16";

pub open spec fn base_url_spec(region: Seq<char>, project: Seq<char>) -> Seq<char> {
    "https://"@ + region + "-aiplatform.googleapis.com/v1/projects/"@ + project + "/locations/"@
        + region + "/publishers/anthropic"@
}

/// The base URL of the gateway for a project in a region.
pub fn base_url(region: &String, project: &String) -> (r: String)
    ensures
        r@ == base_url_spec(region@, project@),
{
    String::from_str("https://").concat(region.as_str()).concat(
        "-aiplatform.googleapis.com/v1/projects/",
    ).concat(project.as_str()).concat("/locations/").concat(region.as_str()).concat(
        "/publishers/anthropic",
    )
}

pub open spec fn endpoint_url_spec(model: Seq<char>, stream: bool) -> Seq<char> {
    "/models/"@ + model + ":"@ + (if stream {
        "streamRawPredict"@
    } else {
        "rawPredict"@
    })
}

/// The path for a request: the model, then the streaming or the
/// synchronous suffix.
pub fn endpoint_url(body: &CreateMessageRequestWithStream) -> (r: String)
    ensures
        r@ == endpoint_url_spec(body.create_message_request.model@, body.stream),
{
    let suffix = if body.stream {
        "streamRawPredict"
    } else {
        "rawPredict"
    };
    String::from_str("/models/").concat(body.create_message_request.model.as_str()).concat(
        ":",
    ).concat(suffix)
}

pub open spec fn request_headers_spec(project: Seq<char>, authorization: Seq<char>, stream: bool) -> Seq<(Seq<char>, Seq<char>)> {
    stream_marker(stream) + seq![
        ("x-goog-user-project"@, project),
        ("authorization"@, authorization),
        ("content-type"@, "application/json"@),
    ]
}

/// The headers of a request to the gateway: the streaming marker when it
/// streams, the project, the credential and the content type.
pub fn request_headers(project: &str, authorization: &str, stream: bool) -> (r: Vec<(String, String)>)
    ensures
        headers_view(r@) == request_headers_spec(project@, authorization@, stream),
{
    let mut h = stream_headers(stream);
    push_header(&mut h, "x-goog-user-project", project);
    push_header(&mut h, "authorization", authorization);
    push_header(&mut h, "content-type", "application/json");
    assert(headers_view(h@) =~= request_headers_spec(project@, authorization@, stream));
    h
}

/// The gateway's body: the shared members with neither model nor null
/// fields, then the stream flag and the protocol version.
pub open spec fn body_spec(r: crate::request::RequestView, stream: bool) -> JsonView {
    JsonView::Object(
        add_shared(Seq::empty(), r).push(("stream"@, JsonView::Bool(stream))).push(
            ("anthropic_version"@, JsonView::Str(DEFAULT_API_VERSION@)),
        ),
    )
}

/// The gateway's body for a request, or a validation error naming
/// `messages` when the request holds a streamed fragment.
pub fn request_body(body: &CreateMessageRequestWithStream) -> (r: Result<JsonValue, ClientError>)
    ensures
        match r {
            Ok(j) => submittable(body.create_message_request@) && j@ == body_spec(
                body.create_message_request@,
                body.stream,
            ),
            Err(e) => !submittable(body.create_message_request@) && e@ == ClientErrorView::Validation("messages"@),
        },
{
    let req = &body.create_message_request;
    if !req.is_submittable() {
        return Err(ClientError::Validation(String::from_str("messages")));
    }
    let mut es: Vec<(String, JsonValue)> = Vec::new();
    assert(entries_view(es@) =~= Seq::empty());
    req.push_shared_entries(&mut es);
    push_entry(&mut es, "stream", JsonValue::Bool(body.stream));
    push_entry(&mut es, "anthropic_version", text(DEFAULT_API_VERSION));
    Ok(object(es))
}

/// Where on the gateway a client sends its requests.
pub struct Location {
    pub project: String,
    pub region: String,
}

/// Chooses a client's project and region; each must be given.
pub fn resolve_location(project: Option<String>, region: Option<String>) -> (r: Result<Location, ClientError>)
    ensures
        match (project, region) {
            (Some(p), Some(g)) => r matches Ok(l) && l.project@ == p@ && l.region@ == g@,
            (None, _) => r matches Err(e) && e@ == ClientErrorView::Validation("project"@),
            (Some(_), None) => r matches Err(e) && e@ == ClientErrorView::Validation("region"@),
        },
{
    let project = match project {
        Some(p) => p,
        None => return Err(ClientError::Validation(String::from_str("project"))),
    };
    match region {
        Some(region) => Ok(Location { project, region }),
        None => Err(ClientError::Validation(String::from_str("region"))),
    }
}

} // verus!
