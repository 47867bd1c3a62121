//! Query logic of a read-only service over recorded blockchain transactions:
//! request validation, the limits placed on listings, and the mapping of a
//! database outcome to a response or an HTTP error.

pub mod date;
pub mod error;
pub mod model;
pub mod handlers;
pub mod laws;
