//! Protocol layer for the Aranet4 environmental sensor: characteristic
//! identifiers, the current-reading packet, and the paginated history log.
pub mod error;
pub mod protocol;
pub mod history;
pub mod readings;
pub mod sensor;
