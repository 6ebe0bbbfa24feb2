use vstd::prelude::*;

use crate::error::{ClientError, ClientErrorView};
use crate::json::{parse_json, parsed_json, JsonValue, JsonView};
use crate::messages::{create_response_of_json, CreateMessageResponse, CreateResponseView, MessageResponse};

verus! {

/// What a decoded body comes to: the response, the backend's error, or a
/// body of no known shape (`raw` is the body as it came).
pub open spec fn response_outcome(j: Option<JsonView>, raw: Seq<char>, r: Result<MessageResponse, ClientError>) -> bool {
    match j {
        Some(doc) => match create_response_of_json(doc) {
            Some(CreateResponseView::Message(m)) => r matches Ok(x) && x@ == m,
            Some(CreateResponseView::Error { error }) => r matches Err(e) && e@ == ClientErrorView::Api(error),
            None => r matches Err(e) && e@ == ClientErrorView::Decode(raw),
        },
        None => r matches Err(e) && e@ == ClientErrorView::Decode(raw),
    }
}

/// Decodes a parsed response body (`raw` is the body's text, kept for
/// diagnostics).
pub fn decode_response_json(j: &JsonValue, raw: &str) -> (r: Result<MessageResponse, ClientError>)
    ensures
        response_outcome(Some(j@), raw@, r),
{
    match CreateMessageResponse::from_json(j) {
        Some(CreateMessageResponse::Message(m)) => Ok(m),
        Some(CreateMessageResponse::Error { error }) => Err(ClientError::Api(error)),
        None => Err(ClientError::Decode(String::from_str(raw))),
    }
}

/// Decodes a response body: a message, the backend's error envelope as an
/// API error, or anything else as a decode error carrying the body.
pub fn decode_response(body: &str) -> (r: Result<MessageResponse, ClientError>)
    ensures
        response_outcome(parsed_json(body@), body@, r),
{
    match parse_json(body) {
        Some(j) => decode_response_json(&j, body),
        None => Err(ClientError::Decode(String::from_str(body))),
    }
}

/// Reads a response body as the backend's answer, message or error
/// envelope alike; a body of no known shape is a decode error carrying it.
pub fn decode_create_response(body: &str) -> (r: Result<CreateMessageResponse, ClientError>)
    ensures
        match parsed_json(body@) {
            Some(doc) => match create_response_of_json(doc) {
                Some(a) => r matches Ok(x) && x@ == a,
                None => r matches Err(e) && e@ == ClientErrorView::Decode(body@),
            },
            None => r matches Err(e) && e@ == ClientErrorView::Decode(body@),
        },
{
    match parse_json(body) {
        Some(j) => match CreateMessageResponse::from_json(&j) {
            Some(a) => Ok(a),
            None => Err(ClientError::Decode(String::from_str(body))),
        },
        None => Err(ClientError::Decode(String::from_str(body))),
    }
}

} // verus!
