//! The data model of the API.
//!
//! Documents follow the JSON:API convention: `data` holds the primary
//! resource or resources, `included` the related ones, `links` the
//! pagination cursors and `meta` whatever else the service reports.

pub mod attributes;
pub mod resources;
pub mod response;
pub mod serde_helpers;
