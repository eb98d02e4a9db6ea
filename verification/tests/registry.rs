use lambda_types::registry::Table;
use lambda_types::{EventTypeMapping, LambdaEventType, LambdaTypeMapper, ResponseTypeMapping};

fn event_mapping(rust_type: &str, imports: Vec<&str>) -> EventTypeMapping {
    EventTypeMapping {
        rust_type: rust_type.to_string(),
        aws_events_module: "custom".to_string(),
        imports: imports.into_iter().map(|line| line.to_string()).collect(),
        serde_attributes: vec![],
    }
}

fn response_mapping(rust_type: &str, imports: Vec<&str>) -> ResponseTypeMapping {
    ResponseTypeMapping {
        rust_type: rust_type.to_string(),
        conversion_impl: None,
        imports: imports.into_iter().map(|line| line.to_string()).collect(),
    }
}

fn builtin_kinds() -> Vec<LambdaEventType> {
    vec![
        LambdaEventType::S3Event,
        LambdaEventType::ApiGatewayProxyRequest,
        LambdaEventType::ApiGatewayV2HttpRequest,
        LambdaEventType::SqsEvent,
        LambdaEventType::SnsEvent,
        LambdaEventType::DynamodbEvent,
        LambdaEventType::EventBridgeEvent(None),
    ]
}

#[test]
fn every_builtin_kind_has_both_mappings() {
    let mapper = LambdaTypeMapper::new();
    for kind in builtin_kinds() {
        assert!(mapper.get_event_mapping(&kind).is_some(), "{:?}", kind);
        assert!(mapper.get_response_mapping(&kind).is_some(), "{:?}", kind);
    }
}

#[test]
fn other_kinds_have_no_mapping_at_first() {
    let mapper = LambdaTypeMapper::new();
    let others = vec![
        LambdaEventType::Auto,
        LambdaEventType::CloudwatchEvent,
        LambdaEventType::KinesisEvent,
        LambdaEventType::Custom("MyEvent".to_string()),
        LambdaEventType::Custom(String::new()),
    ];
    for kind in others {
        assert!(mapper.get_event_mapping(&kind).is_none(), "{:?}", kind);
        assert!(mapper.get_response_mapping(&kind).is_none(), "{:?}", kind);
        assert!(mapper.get_required_imports(&kind).is_empty(), "{:?}", kind);
    }
}

#[test]
fn default_event_mappings_have_their_exact_values() {
    let mapper = LambdaTypeMapper::new();
    let expected: Vec<(LambdaEventType, &str, &str, Vec<&str>)> = vec![
        (
            LambdaEventType::S3Event,
            "S3Event",
            "s3",
            vec!["use aws_lambda_events::s3::S3Event;"],
        ),
        (
            LambdaEventType::ApiGatewayProxyRequest,
            "ApiGatewayProxyRequest",
            "apigw",
            vec![
                "use aws_lambda_events::apigw::{ApiGatewayProxyRequest, ApiGatewayProxyResponse};",
                "use std::collections::HashMap;",
            ],
        ),
        (
            LambdaEventType::ApiGatewayV2HttpRequest,
            "ApiGatewayV2httpRequest",
            "apigw",
            vec![
                "use aws_lambda_events::apigw::{ApiGatewayV2httpRequest, ApiGatewayV2httpResponse};",
                "use std::collections::HashMap;",
            ],
        ),
        (
            LambdaEventType::SqsEvent,
            "SqsEvent",
            "sqs",
            vec!["use aws_lambda_events::sqs::{SqsEvent, SqsBatchResponse, SqsBatchItemFailure};"],
        ),
        (
            LambdaEventType::SnsEvent,
            "SnsEvent",
            "sns",
            vec!["use aws_lambda_events::sns::SnsEvent;"],
        ),
        (
            LambdaEventType::DynamodbEvent,
            "DynamodbEvent",
            "dynamodb",
            vec!["use aws_lambda_events::dynamodb::DynamodbEvent;"],
        ),
        (
            LambdaEventType::EventBridgeEvent(None),
            "EventBridgeEvent<serde_json::Value>",
            "eventbridge",
            vec![
                "use aws_lambda_events::eventbridge::EventBridgeEvent;",
                "use serde_json;",
            ],
        ),
    ];
    for (kind, rust_type, module, imports) in expected {
        let mapping = mapper.get_event_mapping(&kind).unwrap();
        assert_eq!(mapping.rust_type, rust_type);
        assert_eq!(mapping.aws_events_module, module);
        assert_eq!(mapping.imports, imports);
        assert!(mapping.serde_attributes.is_empty());
    }
}

#[test]
fn default_response_mappings_have_their_exact_values() {
    let mapper = LambdaTypeMapper::new();
    let expected: Vec<(LambdaEventType, &str, bool, Vec<&str>)> = vec![
        (LambdaEventType::S3Event, "serde_json::Value", false, vec!["use serde_json;"]),
        (
            LambdaEventType::ApiGatewayProxyRequest,
            "ApiGatewayProxyResponse",
            true,
            vec![
                "use aws_lambda_events::apigw::ApiGatewayProxyResponse;",
                "use std::collections::HashMap;",
            ],
        ),
        (
            LambdaEventType::ApiGatewayV2HttpRequest,
            "ApiGatewayV2httpResponse",
            true,
            vec![
                "use aws_lambda_events::apigw::ApiGatewayV2httpResponse;",
                "use std::collections::HashMap;",
            ],
        ),
        (
            LambdaEventType::SqsEvent,
            "SqsBatchResponse",
            false,
            vec!["use aws_lambda_events::sqs::SqsBatchResponse;"],
        ),
        (LambdaEventType::SnsEvent, "serde_json::Value", false, vec!["use serde_json;"]),
        (LambdaEventType::DynamodbEvent, "serde_json::Value", false, vec!["use serde_json;"]),
        (LambdaEventType::EventBridgeEvent(None), "()", false, vec![]),
    ];
    for (kind, rust_type, converts, imports) in expected {
        let mapping = mapper.get_response_mapping(&kind).unwrap();
        assert_eq!(mapping.rust_type, rust_type);
        assert_eq!(mapping.conversion_impl.is_some(), converts);
        assert_eq!(mapping.imports, imports);
    }
}

#[test]
fn conversion_text_of_the_api_gateway_responses() {
    let mapper = LambdaTypeMapper::new();
    let v1 = mapper
        .get_response_mapping(&LambdaEventType::ApiGatewayProxyRequest)
        .unwrap();
    assert_eq!(
        v1.conversion_impl.as_deref(),
        Some(lambda_types::templates::APIGW_RESPONSE_IMPL)
    );
    assert!(v1
        .conversion_impl
        .as_deref()
        .unwrap()
        .starts_with("impl From<HandlerOutput> for ApiGatewayProxyResponse {"));
    let v2 = mapper
        .get_response_mapping(&LambdaEventType::ApiGatewayV2HttpRequest)
        .unwrap();
    assert_eq!(
        v2.conversion_impl.as_deref(),
        Some(lambda_types::templates::APIGW_V2_RESPONSE_IMPL)
    );
    assert!(v2.conversion_impl.as_deref().unwrap().contains("cookies: vec![],"));
}

#[test]
fn reads_ignore_the_detail_type() {
    let mut mapper = LambdaTypeMapper::new();
    for detail in ["OrderEvent", "", "X", "détail"] {
        let with_detail = LambdaEventType::EventBridgeEvent(Some(detail.to_string()));
        let event = mapper.get_event_mapping(&with_detail).unwrap();
        let plain = mapper
            .get_event_mapping(&LambdaEventType::EventBridgeEvent(None))
            .unwrap();
        assert_eq!(event.rust_type, plain.rust_type);
        assert_eq!(event.aws_events_module, plain.aws_events_module);
        assert_eq!(event.imports, plain.imports);
        let response = mapper.get_response_mapping(&with_detail).unwrap();
        assert_eq!(response.rust_type, "()");
    }
    mapper.add_custom_event_mapping(
        LambdaEventType::EventBridgeEvent(None),
        event_mapping("Replaced", vec![]),
    );
    let found = mapper
        .get_event_mapping(&LambdaEventType::EventBridgeEvent(Some("OrderEvent".to_string())))
        .unwrap();
    assert_eq!(found.rust_type, "Replaced");
}

#[test]
fn second_write_replaces_the_first() {
    let mut mapper = LambdaTypeMapper::new();
    let key = LambdaEventType::Custom("MyEvent".to_string());
    mapper.add_custom_event_mapping(key.clone(), event_mapping("First", vec!["use a;"]));
    mapper.add_custom_event_mapping(key.clone(), event_mapping("Second", vec!["use b;"]));
    let found = mapper.get_event_mapping(&key).unwrap();
    assert_eq!(found.rust_type, "Second");
    assert_eq!(found.aws_events_module, "custom");
    assert_eq!(found.imports, vec!["use b;"]);
    assert!(found.serde_attributes.is_empty());

    mapper.add_custom_response_mapping(key.clone(), response_mapping("FirstOut", vec![]));
    mapper.add_custom_response_mapping(key.clone(), response_mapping("SecondOut", vec![]));
    assert_eq!(mapper.get_response_mapping(&key).unwrap().rust_type, "SecondOut");
}

#[test]
fn write_replaces_a_builtin_mapping() {
    let mut mapper = LambdaTypeMapper::new();
    mapper.add_custom_event_mapping(LambdaEventType::S3Event, event_mapping("MyS3", vec![]));
    assert_eq!(
        mapper.get_event_mapping(&LambdaEventType::S3Event).unwrap().rust_type,
        "MyS3"
    );
    assert_eq!(
        mapper.get_response_mapping(&LambdaEventType::S3Event).unwrap().rust_type,
        "serde_json::Value"
    );
    assert_eq!(
        mapper.get_event_mapping(&LambdaEventType::SqsEvent).unwrap().rust_type,
        "SqsEvent"
    );
}

#[test]
fn write_with_detail_type_is_not_read() {
    let mut mapper = LambdaTypeMapper::new();
    mapper.add_custom_event_mapping(
        LambdaEventType::EventBridgeEvent(Some("X".to_string())),
        event_mapping("Hidden", vec!["use hidden;"]),
    );
    mapper.add_custom_response_mapping(
        LambdaEventType::EventBridgeEvent(Some("X".to_string())),
        response_mapping("HiddenOut", vec!["use hidden_out;"]),
    );
    let plain = mapper
        .get_event_mapping(&LambdaEventType::EventBridgeEvent(None))
        .unwrap();
    assert_ne!(plain.rust_type, "Hidden");
    assert_eq!(plain.rust_type, "EventBridgeEvent<serde_json::Value>");
    let same_key = mapper
        .get_event_mapping(&LambdaEventType::EventBridgeEvent(Some("X".to_string())))
        .unwrap();
    assert_eq!(same_key.rust_type, "EventBridgeEvent<serde_json::Value>");
    let response = mapper
        .get_response_mapping(&LambdaEventType::EventBridgeEvent(Some("X".to_string())))
        .unwrap();
    assert_eq!(response.rust_type, "()");
    assert_eq!(
        mapper.get_required_imports(&LambdaEventType::EventBridgeEvent(None)),
        vec![
            "use aws_lambda_events::eventbridge::EventBridgeEvent;",
            "use serde_json;",
        ]
    );
}

#[test]
fn custom_names_are_told_apart() {
    let mut mapper = LambdaTypeMapper::new();
    mapper.add_custom_event_mapping(
        LambdaEventType::Custom("A".to_string()),
        event_mapping("ForA", vec![]),
    );
    mapper.add_custom_event_mapping(
        LambdaEventType::Custom("B".to_string()),
        event_mapping("ForB", vec![]),
    );
    assert_eq!(
        mapper
            .get_event_mapping(&LambdaEventType::Custom("A".to_string()))
            .unwrap()
            .rust_type,
        "ForA"
    );
    assert_eq!(
        mapper
            .get_event_mapping(&LambdaEventType::Custom("B".to_string()))
            .unwrap()
            .rust_type,
        "ForB"
    );
    assert!(mapper
        .get_event_mapping(&LambdaEventType::Custom("AB".to_string()))
        .is_none());
    assert!(mapper
        .get_response_mapping(&LambdaEventType::Custom("A".to_string()))
        .is_none());
}

#[test]
fn default_is_a_new_mapper() {
    let mapper = LambdaTypeMapper::default();
    for kind in builtin_kinds() {
        let fresh = LambdaTypeMapper::new();
        assert_eq!(
            mapper.get_event_mapping(&kind).unwrap().rust_type,
            fresh.get_event_mapping(&kind).unwrap().rust_type
        );
        assert_eq!(
            mapper.get_required_imports(&kind),
            fresh.get_required_imports(&kind)
        );
    }
}

#[test]
fn clone_has_the_same_mappings_and_is_independent() {
    let mut mapper = LambdaTypeMapper::new();
    let key = LambdaEventType::Custom("MyEvent".to_string());
    mapper.add_custom_event_mapping(key.clone(), event_mapping("Mine", vec!["use mine;"]));
    let copy = mapper.clone();
    mapper.add_custom_event_mapping(key.clone(), event_mapping("Changed", vec![]));
    assert_eq!(copy.get_event_mapping(&key).unwrap().rust_type, "Mine");
    assert_eq!(copy.get_event_mapping(&key).unwrap().imports, vec!["use mine;"]);
    assert_eq!(mapper.get_event_mapping(&key).unwrap().rust_type, "Changed");
    for kind in builtin_kinds() {
        assert_eq!(
            copy.get_response_mapping(&kind).unwrap().rust_type,
            mapper.get_response_mapping(&kind).unwrap().rust_type
        );
    }
}

#[test]
fn event_kinds_compare_by_tag_and_name() {
    assert_eq!(LambdaEventType::S3Event, LambdaEventType::S3Event);
    assert_ne!(LambdaEventType::S3Event, LambdaEventType::SqsEvent);
    assert_ne!(LambdaEventType::Auto, LambdaEventType::KinesisEvent);
    assert_eq!(
        LambdaEventType::EventBridgeEvent(Some("A".to_string())),
        LambdaEventType::EventBridgeEvent(Some("A".to_string()))
    );
    assert_ne!(
        LambdaEventType::EventBridgeEvent(Some("A".to_string())),
        LambdaEventType::EventBridgeEvent(Some("B".to_string()))
    );
    assert_ne!(
        LambdaEventType::EventBridgeEvent(Some("A".to_string())),
        LambdaEventType::EventBridgeEvent(None)
    );
    assert_ne!(
        LambdaEventType::Custom("A".to_string()),
        LambdaEventType::EventBridgeEvent(Some("A".to_string()))
    );
    assert_eq!(
        LambdaEventType::Custom("A".to_string()).clone(),
        LambdaEventType::Custom("A".to_string())
    );
}

#[test]
fn table_reads_only_the_exact_key() {
    let mut table: Table<u32> = Table::new();
    assert!(table.get(&LambdaEventType::S3Event).is_none());
    table.insert(LambdaEventType::S3Event, 1);
    table.insert(LambdaEventType::EventBridgeEvent(Some("X".to_string())), 2);
    table.insert(LambdaEventType::S3Event, 3);
    assert_eq!(table.get(&LambdaEventType::S3Event), Some(&3));
    assert_eq!(
        table.get(&LambdaEventType::EventBridgeEvent(Some("X".to_string()))),
        Some(&2)
    );
    assert_eq!(table.get(&LambdaEventType::EventBridgeEvent(None)), None);
    let copy = table.clone();
    table.insert(LambdaEventType::S3Event, 4);
    assert_eq!(copy.get(&LambdaEventType::S3Event), Some(&3));
    assert_eq!(table.get(&LambdaEventType::S3Event), Some(&4));
}
