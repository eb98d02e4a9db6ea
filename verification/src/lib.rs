//! Type mappings and source-text templates for serverless handlers: which
//! type an event of a given kind is read into, which type answers it, the
//! imports both need, and the text blocks that generated code is built from.

pub mod defaults;
pub mod event;
pub mod laws;
pub mod mapper;
pub mod mapping;
pub mod registry;
pub mod rules;
pub mod sorting;
pub mod templates;

pub use event::LambdaEventType;
pub use mapper::LambdaTypeMapper;
pub use mapping::{EventTypeMapping, ResponseTypeMapping};
pub use rules::{LambdaContext, TypeConversionRule};
pub use templates::GenerationError;
