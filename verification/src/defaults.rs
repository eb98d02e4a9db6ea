//! The mappings that a new mapper starts with: one for events and one for
//! responses under each built-in event kind.

use crate::event::EventKey;
use crate::mapping::{
    texts, EventTypeMapping, EventTypeMappingView, ResponseTypeMapping, ResponseTypeMappingView,
};
use crate::templates::{APIGW_RESPONSE_IMPL, APIGW_V2_RESPONSE_IMPL};
use vstd::prelude::*;

verus! {

/// The event mapping with the given parts and no attributes.
pub open spec fn event_mapping(
    rust_type: Seq<char>,
    aws_events_module: Seq<char>,
    imports: Seq<Seq<char>>,
) -> EventTypeMappingView {
    EventTypeMappingView { rust_type, aws_events_module, imports, serde_attributes: Seq::empty() }
}

/// The response mapping with the given parts.
pub open spec fn response_mapping(
    rust_type: Seq<char>,
    conversion_impl: Option<Seq<char>>,
    imports: Seq<Seq<char>>,
) -> ResponseTypeMappingView {
    ResponseTypeMappingView { rust_type, conversion_impl, imports }
}

/// The event mappings of a new mapper.
pub open spec fn default_event_map() -> Map<EventKey, EventTypeMappingView> {
    map![
        EventKey::S3Event => event_mapping(
            "S3Event"@,
            "s3"@,
            seq!["use aws_lambda_events::s3::S3Event;"@],
        ),
        EventKey::ApiGatewayProxyRequest => event_mapping(
            "ApiGatewayProxyRequest"@,
            "apigw"@,
            seq![
                "use aws_lambda_events::apigw::{ApiGatewayProxyRequest, ApiGatewayProxyResponse};"@,
                "use std::collections::HashMap;"@,
            ],
        ),
        EventKey::ApiGatewayV2HttpRequest => event_mapping(
            "ApiGatewayV2httpRequest"@,
            "apigw"@,
            seq![
                "use aws_lambda_events::apigw::{ApiGatewayV2httpRequest, ApiGatewayV2httpResponse};"@,
                "use std::collections::HashMap;"@,
            ],
        ),
        EventKey::SqsEvent => event_mapping(
            "SqsEvent"@,
            "sqs"@,
            seq![
                "use aws_lambda_events::sqs::{SqsEvent, SqsBatchResponse, SqsBatchItemFailure};"@,
            ],
        ),
        EventKey::SnsEvent => event_mapping(
            "SnsEvent"@,
            "sns"@,
            seq!["use aws_lambda_events::sns::SnsEvent;"@],
        ),
        EventKey::DynamodbEvent => event_mapping(
            "DynamodbEvent"@,
            "dynamodb"@,
            seq!["use aws_lambda_events::dynamodb::DynamodbEvent;"@],
        ),
        EventKey::EventBridgeEvent(None) => event_mapping(
            "EventBridgeEvent<serde_json::Value>"@,
            "eventbridge"@,
            seq!["use aws_lambda_events::eventbridge::EventBridgeEvent;"@, "use serde_json;"@],
        ),
    ]
}

/// The response mappings of a new mapper.
pub open spec fn default_response_map() -> Map<EventKey, ResponseTypeMappingView> {
    map![
        EventKey::S3Event => response_mapping(
            "serde_json::Value"@,
            None,
            seq!["use serde_json;"@],
        ),
        EventKey::ApiGatewayProxyRequest => response_mapping(
            "ApiGatewayProxyResponse"@,
            Some(APIGW_RESPONSE_IMPL@),
            seq![
                "use aws_lambda_events::apigw::ApiGatewayProxyResponse;"@,
                "use std::collections::HashMap;"@,
            ],
        ),
        EventKey::ApiGatewayV2HttpRequest => response_mapping(
            "ApiGatewayV2httpResponse"@,
            Some(APIGW_V2_RESPONSE_IMPL@),
            seq![
                "use aws_lambda_events::apigw::ApiGatewayV2httpResponse;"@,
                "use std::collections::HashMap;"@,
            ],
        ),
        EventKey::SqsEvent => response_mapping(
            "SqsBatchResponse"@,
            None,
            seq!["use aws_lambda_events::sqs::SqsBatchResponse;"@],
        ),
        EventKey::SnsEvent => response_mapping(
            "serde_json::Value"@,
            None,
            seq!["use serde_json;"@],
        ),
        EventKey::DynamodbEvent => response_mapping(
            "serde_json::Value"@,
            None,
            seq!["use serde_json;"@],
        ),
        EventKey::EventBridgeEvent(None) => response_mapping("()"@, None, Seq::empty()),
    ]
}

/// A list of one line.
pub(crate) fn one_line(line: &str) -> (lines: Vec<String>)
    ensures
        texts(lines@) == seq![line@],
{
    let mut lines: Vec<String> = Vec::new();
    lines.push(line.to_string());
    assert(texts(lines@) =~= seq![line@]);
    lines
}

/// A list of two lines.
pub(crate) fn two_lines(first: &str, second: &str) -> (lines: Vec<String>)
    ensures
        texts(lines@) == seq![first@, second@],
{
    let mut lines: Vec<String> = Vec::new();
    lines.push(first.to_string());
    lines.push(second.to_string());
    assert(texts(lines@) =~= seq![first@, second@]);
    lines
}

/// Makes an event mapping without attributes from its parts.
pub(crate) fn make_event_mapping(rust_type: &str, aws_events_module: &str, imports: Vec<String>) -> (made:
    EventTypeMapping)
    ensures
        made@ == event_mapping(rust_type@, aws_events_module@, texts(imports@)),
{
    let made = EventTypeMapping {
        rust_type: rust_type.to_string(),
        aws_events_module: aws_events_module.to_string(),
        imports,
        serde_attributes: Vec::new(),
    };
    assert(made@.serde_attributes =~= Seq::empty());
    made
}

/// Makes a response mapping from its parts.
pub(crate) fn make_response_mapping(
    rust_type: &str,
    conversion_impl: Option<&str>,
    imports: Vec<String>,
) -> (made: ResponseTypeMapping)
    ensures
        made@ == response_mapping(
            rust_type@,
            match conversion_impl {
                Some(text) => Some(text@),
                None => None,
            },
            texts(imports@),
        ),
{
    ResponseTypeMapping {
        rust_type: rust_type.to_string(),
        conversion_impl: match conversion_impl {
            Some(text) => Some(text.to_string()),
            None => None,
        },
        imports,
    }
}

} // verus!
