//! The text blocks that generated code is built from.

use crate::event::{EventKey, LambdaEventType};
use vstd::prelude::*;
use vstd::string::StringExecFns;

verus! {

/// Source text that converts a handler's output into an API Gateway proxy
/// response.
pub const APIGW_RESPONSE_IMPL: &'static str = r#"impl From<HandlerOutput> for ApiGatewayProxyResponse {
    fn from(output: HandlerOutput) -> Self {
        ApiGatewayProxyResponse {
            status_code: output.status_code,
            body: Some(serde_json::to_string(&output.body).unwrap()),
            headers: output.headers.into_iter().collect(),
            multi_value_headers: Default::default(),
            is_base64_encoded: false,
        }
    }
}"#;

/// Source text that converts a handler's output into an API Gateway HTTP
/// (version 2) response.
pub const APIGW_V2_RESPONSE_IMPL: &'static str = r#"impl From<HandlerOutput> for ApiGatewayV2httpResponse {
    fn from(output: HandlerOutput) -> Self {
        ApiGatewayV2httpResponse {
            status_code: output.status_code,
            body: Some(serde_json::to_string(&output.body).unwrap()),
            headers: output.headers.into_iter().collect(),
            is_base64_encoded: Some(false),
            cookies: vec![],
        }
    }
}"#;

/// Source text of a builder for API Gateway proxy responses: status, header,
/// JSON body, build.
pub const APIGW_RESPONSE_BUILDER: &'static str = r#"pub struct ResponseBuilder {
    status_code: u16,
    headers: HashMap<String, String>,
    body: Option<String>,
}

impl ResponseBuilder {
    pub fn new() -> Self {
        Self {
            status_code: 200,
            headers: HashMap::new(),
            body: None,
        }
    }

    pub fn status(mut self, status: u16) -> Self {
        self.status_code = status;
        self
    }

    pub fn header(mut self, key: impl Into<String>, value: impl Into<String>) -> Self {
        self.headers.insert(key.into(), value.into());
        self
    }

    pub fn json<T: serde::Serialize>(mut self, data: &T) -> Result<Self, serde_json::Error> {
        self.body = Some(serde_json::to_string(data)?);
        self.headers.insert("Content-Type".to_string(), "application/json".to_string());
        Ok(self)
    }

    pub fn build(self) -> ApiGatewayProxyResponse {
        ApiGatewayProxyResponse {
            status_code: self.status_code,
            headers: self.headers,
            body: self.body,
            multi_value_headers: Default::default(),
            is_base64_encoded: false,
        }
    }
}"#;

/// Source text of a builder for API Gateway HTTP (version 2) responses:
/// status, header, JSON body, build.
pub const APIGW_V2_RESPONSE_BUILDER: &'static str = r#"pub struct ResponseBuilderV2 {
    status_code: u16,
    headers: HashMap<String, String>,
    body: Option<String>,
}

impl ResponseBuilderV2 {
    pub fn new() -> Self {
        Self {
            status_code: 200,
            headers: HashMap::new(),
            body: None,
        }
    }

    pub fn status(mut self, status: u16) -> Self {
        self.status_code = status;
        self
    }

    pub fn header(mut self, key: impl Into<String>, value: impl Into<String>) -> Self {
        self.headers.insert(key.into(), value.into());
        self
    }

    pub fn json<T: serde::Serialize>(mut self, data: &T) -> Result<Self, serde_json::Error> {
        self.body = Some(serde_json::to_string(data)?);
        self.headers.insert("Content-Type".to_string(), "application/json".to_string());
        Ok(self)
    }

    pub fn build(self) -> ApiGatewayV2httpResponse {
        ApiGatewayV2httpResponse {
            status_code: self.status_code,
            headers: self.headers,
            body: self.body,
            is_base64_encoded: Some(false),
            cookies: vec![],
        }
    }
}"#;

/// Source text of a builder for SQS batch responses: it collects the
/// failed items and builds the response from them.
pub const SQS_RESPONSE_BUILDER: &'static str = r#"pub struct SqsResponseBuilder {
    batch_item_failures: Vec<SqsBatchItemFailure>,
}

impl SqsResponseBuilder {
    pub fn new() -> Self {
        Self {
            batch_item_failures: Vec::new(),
        }
    }

    pub fn add_failure(mut self, item_identifier: String) -> Self {
        self.batch_item_failures.push(SqsBatchItemFailure {
            item_identifier,
        });
        self
    }

    pub fn build(self) -> SqsBatchResponse {
        SqsBatchResponse {
            batch_item_failures: self.batch_item_failures,
        }
    }
}"#;

/// Source text of the error type of generated handlers, with a conversion
/// that sorts a raw error message into one of its variants.
pub const LAMBDA_ERROR_CONVERSIONS: &'static str = r#"#[derive(Debug, thiserror::Error)]
pub enum LambdaError {
    #[error("Serialization failed: {0}")]
    Serialization(#[from] serde_json::Error),
    
    #[error("Handler error: {0}")]
    Handler(String),
    
    #[error("Runtime error: {0}")]
    Runtime(#[from] lambda_runtime::Error),
    
    #[error("HTTP error: {0}")]
    Http(String),
    
    #[error("Missing parameter: {0}")]
    MissingParameter(String),
}

// Note: lambda_runtime::Error conversion would be available when using the actual lambda_runtime crate
// impl From<LambdaError> for lambda_runtime::Error {
//     fn from(err: LambdaError) -> Self {
//         lambda_runtime::Error::from(err.to_string())
//     }
// }

// Automatic error chain generation for common Python patterns
impl From<&str> for LambdaError {
    fn from(msg: &str) -> Self {
        if msg.contains("KeyError") {
            LambdaError::MissingParameter(msg.to_string())
        } else if msg.contains("ValueError") {
            LambdaError::Handler(msg.to_string())
        } else {
            LambdaError::Handler(msg.to_string())
        }
    }
}"#;

/// What stands before the type's name in the text for a custom event type.
pub const CUSTOM_EVENT_HEAD: &'static str = r#"#[derive(Debug, Deserialize, Serialize)]
#[serde(rename_all = "camelCase")]
pub struct "#;

/// What stands between the two places of the type's name in the text for a
/// custom event type.
pub const CUSTOM_EVENT_BODY: &'static str = r#" {
    // Define your custom event fields here
    // Example:
    // pub event_id: String,
    // pub timestamp: String,
    // pub data: serde_json::Value,
}

#[derive(Debug, Deserialize)]
#[serde(tag = "detail-type", content = "detail")]
pub enum EventType {
    #[serde(rename = "Custom Event")]
    CustomEvent("#;

/// What stands after the type's name in the text for a custom event type.
pub const CUSTOM_EVENT_TAIL: &'static str = r#"),
    // Add more event variants as needed
}
"#;

/// Why a text block could not be generated. No input makes generation fail:
/// the functions that return this type always return `Ok`.
#[derive(Debug, Clone, Copy, PartialEq, Eq, Structural)]
pub enum GenerationError {
    Formatting,
}

/// The text for a custom event type named `name`: a struct of that name with
/// camel-case field names, and the enum `EventType` with one variant that
/// holds the struct. The name is put in as it is.
pub open spec fn custom_event_text(name: Seq<char>) -> Seq<char> {
    CUSTOM_EVENT_HEAD@ + name + CUSTOM_EVENT_BODY@ + name + CUSTOM_EVENT_TAIL@
}

/// The response builder for events of the kind `key`: one for each of the
/// two API Gateway kinds and one for SQS, the empty text for any other kind.
pub open spec fn response_builder_text(key: EventKey) -> Seq<char> {
    match key {
        EventKey::ApiGatewayProxyRequest => APIGW_RESPONSE_BUILDER@,
        EventKey::ApiGatewayV2HttpRequest => APIGW_V2_RESPONSE_BUILDER@,
        EventKey::SqsEvent => SQS_RESPONSE_BUILDER@,
        _ => Seq::empty(),
    }
}

/// Writes the text for a custom event type named `custom_type`.
pub fn custom_event_types(custom_type: &str) -> (text: String)
    ensures
        text@ == custom_event_text(custom_type@),
{
    let mut text = String::from_str(CUSTOM_EVENT_HEAD);
    text.append(custom_type);
    text.append(CUSTOM_EVENT_BODY);
    text.append(custom_type);
    text.append(CUSTOM_EVENT_TAIL);
    text
}

/// Picks the response builder for events of the kind `event_type`.
pub fn response_builder(event_type: &LambdaEventType) -> (text: String)
    ensures
        text@ == response_builder_text(event_type@),
{
    match event_type {
        LambdaEventType::ApiGatewayProxyRequest => APIGW_RESPONSE_BUILDER.to_string(),
        LambdaEventType::ApiGatewayV2HttpRequest => APIGW_V2_RESPONSE_BUILDER.to_string(),
        LambdaEventType::SqsEvent => SQS_RESPONSE_BUILDER.to_string(),
        _ => String::new(),
    }
}

} // verus!
