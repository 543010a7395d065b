//! Telemetry for HTTP exchanges: captures one request/response pair as plain
//! values, assembles a record of it, redacts sensitive fields, and decides how
//! the record is to be delivered.

pub mod body;
pub mod clock;
pub mod extractors;
pub mod headers;
pub mod json;
pub mod masking;
pub mod middleware;
pub mod payload;
pub mod text;
pub mod treblle;

pub use body::{decode_response_body, get_request_body};
pub use clock::{get_seconds_with_micro, Timestamp};
pub use extractors::{BodySize, Exchange, Extractor, Header};
pub use headers::Headers;
pub use json::{JsonNumber, JsonValue};
pub use masking::{clear_hashmap, clear_map, clear_value};
pub use middleware::{Delivery, TreblleMiddleware};
pub use payload::{TreblleData, TreblleServerOsData};
pub use treblle::Treblle;
