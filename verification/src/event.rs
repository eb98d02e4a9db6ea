//! The kinds of event source that can trigger a handler, and the key under
//! which each kind is looked up in the mapper's tables.

use vstd::prelude::*;
use vstd::std_specs::cmp::PartialEqSpecImpl;

verus! {

/// The event source that triggers a handler.
///
/// `EventBridgeEvent` may carry the name of a user-declared detail type and
/// `Custom` carries the name of a user-defined event.
#[derive(Debug, Hash)]
pub enum LambdaEventType {
    Auto,
    S3Event,
    ApiGatewayProxyRequest,
    ApiGatewayV2HttpRequest,
    SqsEvent,
    SnsEvent,
    DynamodbEvent,
    EventBridgeEvent(Option<String>),
    CloudwatchEvent,
    KinesisEvent,
    Custom(String),
}

/// Mathematical value of a [`LambdaEventType`]: the same tag, with every name
/// as a sequence of characters.
pub enum EventKey {
    Auto,
    S3Event,
    ApiGatewayProxyRequest,
    ApiGatewayV2HttpRequest,
    SqsEvent,
    SnsEvent,
    DynamodbEvent,
    EventBridgeEvent(Option<Seq<char>>),
    CloudwatchEvent,
    KinesisEvent,
    Custom(Seq<char>),
}

impl View for LambdaEventType {
    type V = EventKey;

    open spec fn view(&self) -> EventKey {
        match self {
            LambdaEventType::Auto => EventKey::Auto,
            LambdaEventType::S3Event => EventKey::S3Event,
            LambdaEventType::ApiGatewayProxyRequest => EventKey::ApiGatewayProxyRequest,
            LambdaEventType::ApiGatewayV2HttpRequest => EventKey::ApiGatewayV2HttpRequest,
            LambdaEventType::SqsEvent => EventKey::SqsEvent,
            LambdaEventType::SnsEvent => EventKey::SnsEvent,
            LambdaEventType::DynamodbEvent => EventKey::DynamodbEvent,
            LambdaEventType::EventBridgeEvent(None) => EventKey::EventBridgeEvent(None),
            LambdaEventType::EventBridgeEvent(Some(name)) => EventKey::EventBridgeEvent(
                Some(name@),
            ),
            LambdaEventType::CloudwatchEvent => EventKey::CloudwatchEvent,
            LambdaEventType::KinesisEvent => EventKey::KinesisEvent,
            LambdaEventType::Custom(name) => EventKey::Custom(name@),
        }
    }
}

/// The key that a read uses for `key`: every `EventBridgeEvent`, whatever its
/// detail type, reads under `EventBridgeEvent(None)`; any other key reads
/// under itself.
pub open spec fn lookup_key(key: EventKey) -> EventKey {
    match key {
        EventKey::EventBridgeEvent(_) => EventKey::EventBridgeEvent(None),
        _ => key,
    }
}

/// The event kinds that a new mapper has mappings for.
pub open spec fn is_builtin_key(key: EventKey) -> bool {
    ||| key == EventKey::S3Event
    ||| key == EventKey::ApiGatewayProxyRequest
    ||| key == EventKey::ApiGatewayV2HttpRequest
    ||| key == EventKey::SqsEvent
    ||| key == EventKey::SnsEvent
    ||| key == EventKey::DynamodbEvent
    ||| key == EventKey::EventBridgeEvent(None)
}

impl Clone for LambdaEventType {
    fn clone(&self) -> (copy: Self)
        ensures
            copy == *self,
    {
        match self {
            LambdaEventType::Auto => LambdaEventType::Auto,
            LambdaEventType::S3Event => LambdaEventType::S3Event,
            LambdaEventType::ApiGatewayProxyRequest => LambdaEventType::ApiGatewayProxyRequest,
            LambdaEventType::ApiGatewayV2HttpRequest => LambdaEventType::ApiGatewayV2HttpRequest,
            LambdaEventType::SqsEvent => LambdaEventType::SqsEvent,
            LambdaEventType::SnsEvent => LambdaEventType::SnsEvent,
            LambdaEventType::DynamodbEvent => LambdaEventType::DynamodbEvent,
            LambdaEventType::EventBridgeEvent(None) => LambdaEventType::EventBridgeEvent(None),
            LambdaEventType::EventBridgeEvent(Some(name)) => LambdaEventType::EventBridgeEvent(
                Some(name.clone()),
            ),
            LambdaEventType::CloudwatchEvent => LambdaEventType::CloudwatchEvent,
            LambdaEventType::KinesisEvent => LambdaEventType::KinesisEvent,
            LambdaEventType::Custom(name) => LambdaEventType::Custom(name.clone()),
        }
    }
}

impl PartialEq for LambdaEventType {
    fn eq(&self, other: &Self) -> (equal: bool) {
        match (self, other) {
            (LambdaEventType::Auto, LambdaEventType::Auto) => true,
            (LambdaEventType::S3Event, LambdaEventType::S3Event) => true,
            (
                LambdaEventType::ApiGatewayProxyRequest,
                LambdaEventType::ApiGatewayProxyRequest,
            ) => true,
            (
                LambdaEventType::ApiGatewayV2HttpRequest,
                LambdaEventType::ApiGatewayV2HttpRequest,
            ) => true,
            (LambdaEventType::SqsEvent, LambdaEventType::SqsEvent) => true,
            (LambdaEventType::SnsEvent, LambdaEventType::SnsEvent) => true,
            (LambdaEventType::DynamodbEvent, LambdaEventType::DynamodbEvent) => true,
            (LambdaEventType::EventBridgeEvent(None), LambdaEventType::EventBridgeEvent(None)) => {
                true
            },
            (
                LambdaEventType::EventBridgeEvent(Some(left)),
                LambdaEventType::EventBridgeEvent(Some(right)),
            ) => *left == *right,
            (LambdaEventType::CloudwatchEvent, LambdaEventType::CloudwatchEvent) => true,
            (LambdaEventType::KinesisEvent, LambdaEventType::KinesisEvent) => true,
            (LambdaEventType::Custom(left), LambdaEventType::Custom(right)) => *left == *right,
            _ => false,
        }
    }
}

impl PartialEqSpecImpl for LambdaEventType {
    open spec fn obeys_eq_spec() -> bool {
        true
    }

    open spec fn eq_spec(&self, other: &Self) -> bool {
        self@ == other@
    }
}

impl Eq for LambdaEventType {

}

} // verus!
