//! The flash message itself, the errors its extraction can report, and the
//! extraction decision.

use vstd::prelude::*;

use crate::cookie::{
    cookie_views, find_cookie, first_named, flash_cookie_name, spec_flash_cookie_name, FlashCookie,
};
use crate::json::{from_json_string, spec_json_decode_str};

verus! {

/// The two failures the flash reader can report. Either answers the request
/// with a bad-request status, and neither carries any detail of the JSON
/// parser's own error.
#[derive(Clone, Copy, Debug, PartialEq, Eq, Structural)]
pub enum FlashError {
    /// The request carried no flash cookie.
    NoFlashCookie,
    /// The request carried the flash cookie, but its value was not valid JSON
    /// for the expected type.
    InvalidFlashCookie,
}

impl FlashError {
    /// The text shown to the client; it says nothing of parser internals.
    pub fn message(&self) -> (r: &'static str)
        ensures
            *self is NoFlashCookie ==> r@ == "No flash cookie"@,
            *self is InvalidFlashCookie ==> r@ == "Invalid flash cookie"@,
    {
        match self {
            FlashError::NoFlashCookie => "No flash cookie",
            FlashError::InvalidFlashCookie => "Invalid flash cookie",
        }
    }

    /// The HTTP status either failure maps to: 400, Bad Request.
    pub fn status_code(&self) -> (r: u16)
        ensures
            r == 400,
    {
        400
    }
}

/// Holds one flash message: a value passed from one request's response to the
/// next request's handler via the flash cookie.
#[derive(Debug)]
pub struct FlashMessage<T>(T);

impl<T> FlashMessage<T> {
    /// The value the message holds.
    pub closed spec fn inner(&self) -> T {
        self.0
    }

    /// Creates a new flash message with `inner` as the content.
    pub fn new(inner: T) -> (r: Self)
        ensures
            r.inner() == inner,
    {
        FlashMessage(inner)
    }

    /// Retrieves the content of a flash message.
    pub fn into_inner(self) -> (r: T)
        ensures
            r == self.inner(),
    {
        self.0
    }
}

/// The decision the flash reader takes, over what the host framework and the
/// JSON decoder found: `parsed` is nothing where the request carried no flash
/// cookie, and otherwise holds the outcome of decoding the cookie's value as
/// the target type. An absent cookie and an undecodable one map to the two
/// errors; a decoded value becomes the message.
pub fn decode_flash<T>(parsed: Option<Option<T>>) -> (r: Result<FlashMessage<T>, FlashError>)
    ensures
        parsed is None ==> r == Err::<FlashMessage<T>, FlashError>(FlashError::NoFlashCookie),
        parsed matches Some(None) ==> r == Err::<FlashMessage<T>, FlashError>(
            FlashError::InvalidFlashCookie,
        ),
        parsed matches Some(Some(v)) ==> (r matches Ok(m) && m.inner() == v),
{
    match parsed {
        None => Err(FlashError::NoFlashCookie),
        Some(None) => Err(FlashError::InvalidFlashCookie),
        Some(Some(v)) => Ok(FlashMessage(v)),
    }
}

impl FlashMessage<String> {
    /// Reads the flash message a request carries: the first cookie named
    /// `_flash` among the request's cookies, its value decoded from JSON.
    /// Fails with [`FlashError::NoFlashCookie`] where no such cookie is
    /// carried, and with [`FlashError::InvalidFlashCookie`] where its value
    /// does not decode.
    pub fn from_request(cookies: &Vec<FlashCookie>) -> (r: Result<FlashMessage<String>, FlashError>)
        ensures
            ({
                let found = first_named(cookie_views(cookies@), spec_flash_cookie_name());
                match found {
                    None => r == Err::<FlashMessage<String>, FlashError>(FlashError::NoFlashCookie),
                    Some(c) => match spec_json_decode_str(c.value) {
                        None => r == Err::<FlashMessage<String>, FlashError>(
                            FlashError::InvalidFlashCookie,
                        ),
                        Some(s) => r matches Ok(m) && m.inner()@ == s,
                    },
                }
            }),
    {
        let name = flash_cookie_name();
        let parsed = match find_cookie(cookies, &name) {
            None => None,
            Some(i) => Some(from_json_string(cookies[i].value.as_str())),
        };
        decode_flash(parsed)
    }
}

} // verus!
