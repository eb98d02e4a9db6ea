//! Descriptors held by the mapper: how an event is read and how the answer
//! is written.

use vstd::prelude::*;

verus! {

/// The lines of `lines`, each as a sequence of characters.
pub open spec fn texts(lines: Seq<String>) -> Seq<Seq<char>> {
    lines.map_values(|line: String| line@)
}

/// How the triggering event is deserialized: the target type, the module
/// that holds it, the imports it needs and the attributes put on it.
#[derive(Debug)]
pub struct EventTypeMapping {
    pub rust_type: String,
    pub aws_events_module: String,
    pub imports: Vec<String>,
    pub serde_attributes: Vec<String>,
}

/// Mathematical value of an [`EventTypeMapping`].
pub struct EventTypeMappingView {
    pub rust_type: Seq<char>,
    pub aws_events_module: Seq<char>,
    pub imports: Seq<Seq<char>>,
    pub serde_attributes: Seq<Seq<char>>,
}

impl View for EventTypeMapping {
    type V = EventTypeMappingView;

    open spec fn view(&self) -> EventTypeMappingView {
        EventTypeMappingView {
            rust_type: self.rust_type@,
            aws_events_module: self.aws_events_module@,
            imports: texts(self.imports@),
            serde_attributes: texts(self.serde_attributes@),
        }
    }
}

impl Clone for EventTypeMapping {
    fn clone(&self) -> (copy: Self)
        ensures
            copy@ == self@,
    {
        EventTypeMapping {
            rust_type: self.rust_type.clone(),
            aws_events_module: self.aws_events_module.clone(),
            imports: self.imports.clone(),
            serde_attributes: self.serde_attributes.clone(),
        }
    }
}

/// How the handler's output is serialized: the target type, source text that
/// converts the output into it where there is any, and the imports it needs.
#[derive(Debug)]
pub struct ResponseTypeMapping {
    pub rust_type: String,
    pub conversion_impl: Option<String>,
    pub imports: Vec<String>,
}

/// Mathematical value of a [`ResponseTypeMapping`].
pub struct ResponseTypeMappingView {
    pub rust_type: Seq<char>,
    pub conversion_impl: Option<Seq<char>>,
    pub imports: Seq<Seq<char>>,
}

impl View for ResponseTypeMapping {
    type V = ResponseTypeMappingView;

    open spec fn view(&self) -> ResponseTypeMappingView {
        ResponseTypeMappingView {
            rust_type: self.rust_type@,
            conversion_impl: match self.conversion_impl {
                Some(text) => Some(text@),
                None => None,
            },
            imports: texts(self.imports@),
        }
    }
}

impl Clone for ResponseTypeMapping {
    fn clone(&self) -> (copy: Self)
        ensures
            copy@ == self@,
    {
        ResponseTypeMapping {
            rust_type: self.rust_type.clone(),
            conversion_impl: self.conversion_impl.clone(),
            imports: self.imports.clone(),
        }
    }
}

} // verus!
