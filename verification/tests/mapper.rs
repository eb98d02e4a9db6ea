use lambda_types::{EventTypeMapping, LambdaEventType, LambdaTypeMapper};

#[test]
fn test_event_mapping_retrieval() {
    let mapper = LambdaTypeMapper::new();

    let s3_mapping = mapper.get_event_mapping(&LambdaEventType::S3Event).unwrap();
    assert_eq!(s3_mapping.rust_type, "S3Event");
    assert_eq!(s3_mapping.aws_events_module, "s3");
}

#[test]
fn test_response_mapping_retrieval() {
    let mapper = LambdaTypeMapper::new();

    let apigw_response = mapper
        .get_response_mapping(&LambdaEventType::ApiGatewayProxyRequest)
        .unwrap();
    assert_eq!(apigw_response.rust_type, "ApiGatewayProxyResponse");
    assert!(apigw_response.conversion_impl.is_some());
}

#[test]
fn test_eventbridge_custom_type() {
    let mapper = LambdaTypeMapper::new();

    let custom_event = LambdaEventType::EventBridgeEvent(Some("OrderEvent".to_string()));
    let mapping = mapper.get_event_mapping(&custom_event).unwrap();

    assert_eq!(mapping.rust_type, "EventBridgeEvent<serde_json::Value>");
}

#[test]
fn test_type_conversion_rules() {
    let mapper = LambdaTypeMapper::new();
    let rules = mapper.get_type_conversion_rules();

    assert!(!rules.is_empty());

    let dict_rule = rules.iter().find(|r| r.python_pattern == "dict").unwrap();
    assert_eq!(dict_rule.rust_type, "T: Deserialize");
    assert!(dict_rule.serde_attribute.is_some());
}

#[test]
fn test_custom_eventbridge_types_generation() {
    let mapper = LambdaTypeMapper::new();
    let generated = mapper.generate_custom_eventbridge_types("OrderEvent").unwrap();

    assert!(generated.contains("struct OrderEvent"));
    assert!(generated.contains("enum EventType"));
}

#[test]
fn test_required_imports() {
    let mapper = LambdaTypeMapper::new();
    let imports = mapper.get_required_imports(&LambdaEventType::ApiGatewayProxyRequest);

    assert!(imports.iter().any(|i| i.contains("ApiGatewayProxyRequest")));
    assert!(imports.iter().any(|i| i.contains("HashMap")));
}

#[test]
fn test_response_builders() {
    let mapper = LambdaTypeMapper::new();
    let builder = mapper
        .generate_response_builders(&LambdaEventType::ApiGatewayProxyRequest)
        .unwrap();

    assert!(builder.contains("ResponseBuilder"));
    assert!(builder.contains("fn status"));
    assert!(builder.contains("fn json"));
}

#[test]
fn test_error_conversions() {
    let mapper = LambdaTypeMapper::new();
    let errors = mapper.generate_error_conversions();

    assert!(errors.contains("enum LambdaError"));
    assert!(errors.contains("MissingParameter"));
    assert!(errors.contains("thiserror::Error"));
}

#[test]
fn test_custom_mapping_addition() {
    let mut mapper = LambdaTypeMapper::new();

    let custom_event = LambdaEventType::Custom("MyEvent".to_string());
    let custom_mapping = EventTypeMapping {
        rust_type: "MyCustomEvent".to_string(),
        aws_events_module: "custom".to_string(),
        imports: vec!["use my_crate::MyCustomEvent;".to_string()],
        serde_attributes: vec![],
    };

    mapper.add_custom_event_mapping(custom_event.clone(), custom_mapping);

    let retrieved = mapper.get_event_mapping(&custom_event).unwrap();
    assert_eq!(retrieved.rust_type, "MyCustomEvent");
}
