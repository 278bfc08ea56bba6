//! Deferred-interpretation wrappers around HTTP responses.
//!
//! A captured response keeps the raw body bytes while remembering the
//! success/failure disposition implied by the HTTP status code at capture
//! time. The raw body can be read as bytes or text at any time; structural
//! decoding into JSON or into caller-chosen success/failure shapes is
//! deferred until the caller asks for it.

pub mod buffer;
pub mod capture;
pub mod json;
pub mod response;

pub use capture::CapturePlan;
pub use capture::Disposition;
pub use capture::capture_plan;
pub use response::ResponseModel;
pub use response::TypedResponse;
