//! Metadata about a design project on a remote design-tool service, fetched
//! as one resource hierarchy: project, files, pages, layers.
//!
//! Two components make up the crate. The resource model ([`model`] and
//! [`codec`]) gives each remote resource a typed representation and a codec
//! between it and the service's JSON shapes, with the defaulting rule for
//! optional lists and a `SchemaMismatch` failure for a missing required
//! field. The project fetcher ([`fetch`]) turns a validated configuration
//! into the one authenticated GET of the project-files endpoint and judges
//! the response: a request plan is built only from a usable configuration,
//! any non-success status is a transport failure, and a success body is
//! decoded by the resource model.
//!
//! The crate itself performs no I/O: an HTTP client issues the planned
//! request and hands back the status and the parsed body.

pub mod codec;
pub mod fetch;
pub mod json;
pub mod model;
