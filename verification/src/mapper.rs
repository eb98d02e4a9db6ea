//! The mapper: two tables keyed by event kind, one of event mappings and one
//! of response mappings, with the reads, writes and text generation on them.

use crate::defaults::{
    default_event_map, default_response_map, make_event_mapping, make_response_mapping, one_line,
    two_lines,
};
use crate::event::{lookup_key, EventKey, LambdaEventType};
use crate::mapping::{
    texts, EventTypeMapping, EventTypeMappingView, ResponseTypeMapping, ResponseTypeMappingView,
};
use crate::registry::Table;
use crate::rules::{conversion_rules, rule_views, type_conversion_rules, TypeConversionRule};
use crate::sorting::{insert_lines, strictly_sorted};
use crate::templates::{
    custom_event_text, custom_event_types, response_builder, response_builder_text,
    GenerationError, APIGW_RESPONSE_IMPL, APIGW_V2_RESPONSE_IMPL, LAMBDA_ERROR_CONVERSIONS,
};
use vstd::prelude::*;

verus! {

/// What a read for `key` finds in `map`: the value under the key that reads
/// of `key` use, if there is one.
pub open spec fn lookup<V>(map: Map<EventKey, V>, key: EventKey) -> Option<V> {
    if map.dom().contains(lookup_key(key)) {
        Some(map[lookup_key(key)])
    } else {
        None
    }
}

/// The import lines that reads for `key` find: those of the event mapping,
/// then those of the response mapping, each only where the mapping exists.
pub open spec fn import_lines(
    events: Map<EventKey, EventTypeMappingView>,
    responses: Map<EventKey, ResponseTypeMappingView>,
    key: EventKey,
) -> Seq<Seq<char>> {
    let of_event = match lookup(events, key) {
        Some(mapping) => mapping.imports,
        None => Seq::empty(),
    };
    let of_response = match lookup(responses, key) {
        Some(mapping) => mapping.imports,
        None => Seq::empty(),
    };
    of_event + of_response
}

/// Maps event kinds to the types and imports that generated code needs.
#[derive(Debug)]
pub struct LambdaTypeMapper {
    event_mappings: Table<EventTypeMapping>,
    response_mappings: Table<ResponseTypeMapping>,
}

impl LambdaTypeMapper {
    /// The event mappings, by the exact key each was stored under.
    pub closed spec fn event_map(&self) -> Map<EventKey, EventTypeMappingView> {
        self.event_mappings@.map_values(|mapping: EventTypeMapping| mapping@)
    }

    /// The response mappings, by the exact key each was stored under.
    pub closed spec fn response_map(&self) -> Map<EventKey, ResponseTypeMappingView> {
        self.response_mappings@.map_values(|mapping: ResponseTypeMapping| mapping@)
    }

    /// A mapper with the mappings of every built-in event kind.
    pub fn new() -> (mapper: Self)
        ensures
            mapper.event_map() == default_event_map(),
            mapper.response_map() == default_response_map(),
    {
        let mut mapper = LambdaTypeMapper {
            event_mappings: Table::new(),
            response_mappings: Table::new(),
        };
        assert(mapper.event_map() =~= Map::empty());
        assert(mapper.response_map() =~= Map::empty());

        mapper.add_custom_event_mapping(
            LambdaEventType::S3Event,
            make_event_mapping("S3Event", "s3", one_line("use aws_lambda_events::s3::S3Event;")),
        );
        mapper.add_custom_response_mapping(
            LambdaEventType::S3Event,
            make_response_mapping("serde_json::Value", None, one_line("use serde_json;")),
        );

        mapper.add_custom_event_mapping(
            LambdaEventType::ApiGatewayProxyRequest,
            make_event_mapping(
                "ApiGatewayProxyRequest",
                "apigw",
                two_lines(
                    "use aws_lambda_events::apigw::{ApiGatewayProxyRequest, ApiGatewayProxyResponse};",
                    "use std::collections::HashMap;",
                ),
            ),
        );
        mapper.add_custom_response_mapping(
            LambdaEventType::ApiGatewayProxyRequest,
            make_response_mapping(
                "ApiGatewayProxyResponse",
                Some(APIGW_RESPONSE_IMPL),
                two_lines(
                    "use aws_lambda_events::apigw::ApiGatewayProxyResponse;",
                    "use std::collections::HashMap;",
                ),
            ),
        );

        mapper.add_custom_event_mapping(
            LambdaEventType::ApiGatewayV2HttpRequest,
            make_event_mapping(
                "ApiGatewayV2httpRequest",
                "apigw",
                two_lines(
                    "use aws_lambda_events::apigw::{ApiGatewayV2httpRequest, ApiGatewayV2httpResponse};",
                    "use std::collections::HashMap;",
                ),
            ),
        );
        mapper.add_custom_response_mapping(
            LambdaEventType::ApiGatewayV2HttpRequest,
            make_response_mapping(
                "ApiGatewayV2httpResponse",
                Some(APIGW_V2_RESPONSE_IMPL),
                two_lines(
                    "use aws_lambda_events::apigw::ApiGatewayV2httpResponse;",
                    "use std::collections::HashMap;",
                ),
            ),
        );

        mapper.add_custom_event_mapping(
            LambdaEventType::SqsEvent,
            make_event_mapping(
                "SqsEvent",
                "sqs",
                one_line(
                    "use aws_lambda_events::sqs::{SqsEvent, SqsBatchResponse, SqsBatchItemFailure};",
                ),
            ),
        );
        mapper.add_custom_response_mapping(
            LambdaEventType::SqsEvent,
            make_response_mapping(
                "SqsBatchResponse",
                None,
                one_line("use aws_lambda_events::sqs::SqsBatchResponse;"),
            ),
        );

        mapper.add_custom_event_mapping(
            LambdaEventType::SnsEvent,
            make_event_mapping("SnsEvent", "sns", one_line("use aws_lambda_events::sns::SnsEvent;")),
        );
        mapper.add_custom_response_mapping(
            LambdaEventType::SnsEvent,
            make_response_mapping("serde_json::Value", None, one_line("use serde_json;")),
        );

        mapper.add_custom_event_mapping(
            LambdaEventType::DynamodbEvent,
            make_event_mapping(
                "DynamodbEvent",
                "dynamodb",
                one_line("use aws_lambda_events::dynamodb::DynamodbEvent;"),
            ),
        );
        mapper.add_custom_response_mapping(
            LambdaEventType::DynamodbEvent,
            make_response_mapping("serde_json::Value", None, one_line("use serde_json;")),
        );

        mapper.add_custom_event_mapping(
            LambdaEventType::EventBridgeEvent(None),
            make_event_mapping(
                "EventBridgeEvent<serde_json::Value>",
                "eventbridge",
                two_lines(
                    "use aws_lambda_events::eventbridge::EventBridgeEvent;",
                    "use serde_json;",
                ),
            ),
        );
        let no_lines: Vec<String> = Vec::new();
        assert(texts(no_lines@) =~= Seq::empty());
        mapper.add_custom_response_mapping(
            LambdaEventType::EventBridgeEvent(None),
            make_response_mapping("()", None, no_lines),
        );

        assert(mapper.event_map() =~= default_event_map());
        assert(mapper.response_map() =~= default_response_map());
        mapper
    }

    /// The event mapping that a read for `event_type` finds: for an
    /// `EventBridgeEvent`, whatever its detail type, the one stored under
    /// `EventBridgeEvent(None)`; for any other kind the one stored under
    /// exactly that kind. `None` where nothing is stored there.
    pub fn get_event_mapping(&self, event_type: &LambdaEventType) -> (found: Option<
        &EventTypeMapping,
    >)
        ensures
            match found {
                Some(mapping) => lookup(self.event_map(), event_type@) == Some(mapping@),
                None => lookup(self.event_map(), event_type@) is None,
            },
    {
        match event_type {
            LambdaEventType::EventBridgeEvent(Some(_)) => self.event_mappings.get(
                &LambdaEventType::EventBridgeEvent(None),
            ),
            _ => self.event_mappings.get(event_type),
        }
    }

    /// The response mapping that a read for `event_type` finds, by the same
    /// rule as for event mappings.
    pub fn get_response_mapping(&self, event_type: &LambdaEventType) -> (found: Option<
        &ResponseTypeMapping,
    >)
        ensures
            match found {
                Some(mapping) => lookup(self.response_map(), event_type@) == Some(mapping@),
                None => lookup(self.response_map(), event_type@) is None,
            },
    {
        match event_type {
            LambdaEventType::EventBridgeEvent(Some(_)) => self.response_mappings.get(
                &LambdaEventType::EventBridgeEvent(None),
            ),
            _ => self.response_mappings.get(event_type),
        }
    }

    /// The table of conversion rules, the same for every mapper.
    pub fn get_type_conversion_rules(&self) -> (rules: Vec<TypeConversionRule>)
        ensures
            rule_views(rules@) == conversion_rules(),
    {
        type_conversion_rules()
    }

    /// The text for a custom event type named `custom_type`. Always `Ok`.
    pub fn generate_custom_eventbridge_types(&self, custom_type: &str) -> (generated: Result<
        String,
        GenerationError,
    >)
        ensures
            generated matches Ok(text) && text@ == custom_event_text(custom_type@),
    {
        Ok(custom_event_types(custom_type))
    }

    /// The response builder for events of the kind `event_type`; the empty
    /// text where the kind has none. Always `Ok`.
    pub fn generate_response_builders(&self, event_type: &LambdaEventType) -> (generated: Result<
        String,
        GenerationError,
    >)
        ensures
            generated matches Ok(text) && text@ == response_builder_text(event_type@),
    {
        Ok(response_builder(event_type))
    }

    /// Stores `mapping` as the event mapping under exactly `event_type`, in
    /// place of what was stored there. The response mappings stay as they are.
    pub fn add_custom_event_mapping(
        &mut self,
        event_type: LambdaEventType,
        mapping: EventTypeMapping,
    )
        ensures
            final(self).event_map() == old(self).event_map().insert(event_type@, mapping@),
            final(self).response_map() == old(self).response_map(),
    {
        self.event_mappings.insert(event_type, mapping);
        assert(self.event_map() =~= old(self).event_map().insert(event_type@, mapping@));
    }

    /// Stores `mapping` as the response mapping under exactly `event_type`,
    /// in place of what was stored there. The event mappings stay as they are.
    pub fn add_custom_response_mapping(
        &mut self,
        event_type: LambdaEventType,
        mapping: ResponseTypeMapping,
    )
        ensures
            final(self).response_map() == old(self).response_map().insert(event_type@, mapping@),
            final(self).event_map() == old(self).event_map(),
    {
        self.response_mappings.insert(event_type, mapping);
        assert(self.response_map() =~= old(self).response_map().insert(event_type@, mapping@));
    }

    /// The import lines that generated code for `event_type` needs: those of
    /// the event mapping and of the response mapping that reads for
    /// `event_type` find, in ascending order and each line once.
    pub fn get_required_imports(&self, event_type: &LambdaEventType) -> (imports: Vec<String>)
        ensures
            strictly_sorted(texts(imports@)),
            texts(imports@).to_set() == import_lines(
                self.event_map(),
                self.response_map(),
                event_type@,
            ).to_set(),
    {
        let mut imports: Vec<String> = Vec::new();
        let ghost of_event: Seq<Seq<char>> = Seq::empty();
        let ghost of_response: Seq<Seq<char>> = Seq::empty();
        assert(texts(imports@) =~= Seq::empty());
        if let Some(event_mapping) = self.get_event_mapping(event_type) {
            insert_lines(&mut imports, &event_mapping.imports);
            proof {
                of_event = event_mapping@.imports;
            }
        }
        assert(texts(imports@).to_set() =~= of_event.to_set());
        if let Some(response_mapping) = self.get_response_mapping(event_type) {
            insert_lines(&mut imports, &response_mapping.imports);
            proof {
                of_response = response_mapping@.imports;
            }
        }
        proof {
            assert(texts(imports@).to_set() =~= of_event.to_set().union(of_response.to_set()));
            vstd::seq_lib::seq_to_set_distributes_over_add(of_event, of_response);
        }
        imports
    }

    /// The text of the error type of generated handlers.
    pub fn generate_error_conversions(&self) -> (text: String)
        ensures
            text@ == LAMBDA_ERROR_CONVERSIONS@,
    {
        LAMBDA_ERROR_CONVERSIONS.to_string()
    }
}

impl Default for LambdaTypeMapper {
    fn default() -> (mapper: Self)
        ensures
            mapper.event_map() == default_event_map(),
            mapper.response_map() == default_response_map(),
    {
        Self::new()
    }
}

impl Clone for LambdaTypeMapper {
    fn clone(&self) -> (copy: Self)
        ensures
            copy.event_map() == self.event_map(),
            copy.response_map() == self.response_map(),
    {
        let copy = LambdaTypeMapper {
            event_mappings: self.event_mappings.clone(),
            response_mappings: self.response_mappings.clone(),
        };
        assert(copy.event_map() =~= self.event_map());
        assert(copy.response_map() =~= self.response_map());
        copy
    }
}

} // verus!
