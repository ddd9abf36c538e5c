//! Flash messages for a cookie-based web application: a one-shot value set on
//! an outgoing response, read back by a handler on the following request, and
//! cleared by middleware once it has served its turn.
//!
//! The whole mechanism is a single reserved cookie, named `_flash`, whose
//! value is the JSON encoding of the message. Three parts cooperate:
//!
//! - a reader ([`FlashMessage`]) that extracts the message a request carries,
//! - a writer ([`FlashResponse`]) that renders a delegate response and
//!   attaches a fresh flash cookie beside it,
//! - a cleaner ([`FlashMiddleware`]) that appends an expiration directive when
//!   a request carried the cookie and the response has not renewed it.
//!
//! The cookie is untrusted input: nothing here signs or encrypts it, and a
//! value that fails to decode is reported as a bad request without any detail
//! of the parser's own error.

pub mod cookie;
pub mod json;
pub mod message;
pub mod middleware;
pub mod response;

pub use cookie::FlashCookie;
pub use message::FlashError;
pub use message::FlashMessage;
pub use message::decode_flash;
pub use middleware::FlashMiddleware;
pub use middleware::FlashMiddlewareServiceWrapper;
pub use response::FlashResponse;
pub use response::ResponseModel;
