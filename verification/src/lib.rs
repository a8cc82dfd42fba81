//! A stateless request handler: it greets the caller with the user agent
//! that the request carried, as a JSON object under the key `message`.

pub mod json;
pub mod message;
pub mod reply;
pub mod response;

pub use crate::message::create_message;
pub use crate::reply::{HttpResponse, Reply};
pub use crate::response::Response;
