//! A verified core for an HTTP weather gateway: it validates the query
//! parameters of the two read endpoints, plans the outbound provider call,
//! normalizes the provider's payload, renders it as a JSON document or a
//! decorated text report, and classifies every failure into a status code
//! and a structured error body.

pub mod dispatch;
pub mod emoji;
pub mod errors;
pub mod json;
pub mod model;
pub mod numfmt;
pub mod report;
pub mod strutil;
pub mod timefmt;
pub mod trim;
pub mod urlenc;
