//! Tracing of a GraphQL request as one Sentry transaction: a span for each
//! pipeline stage and each resolved field, linked by the field's path.

pub mod extension;
pub mod path;
pub mod sources;
pub mod span;
pub mod store;
