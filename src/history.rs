//! The paginated history log: page headers, requests, the page-pull state
//! machine, and assembly of the four channels into records.
pub mod header;
pub mod readings;
pub mod pull;
pub mod record;
pub mod retrieval;
