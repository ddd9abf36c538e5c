//! The flash writer: a response decorator that renders a delegate response
//! and attaches the serialized message beside it as the flash cookie.

use vstd::prelude::*;

use crate::cookie::{
    cookie_views, count_named, first_named, lemma_first_named_none_iff_count_zero,
    lemma_named_push, spec_flash_cookie, spec_flash_cookie_name, CookieVal, FlashCookie,
};
use crate::json::{spec_json_encode_str, to_json_string};
use crate::message::FlashMessage;

verus! {

/// Mathematical view of a response, as far as the flash protocol reads it.
pub ghost struct RespVal {
    pub status: u16,
    pub location: Option<Seq<char>>,
    pub cookies: Seq<CookieVal>,
}

/// The slice of an HTTP response that the flash protocol reads and writes:
/// its status code, its redirect location, and the cookies it sets. Whatever
/// else a real response carries, this library leaves untouched.
pub struct ResponseModel {
    /// The response's status code.
    pub status: u16,
    /// The target of the response's Location header, where one is set.
    pub location: Option<String>,
    /// The cookies the response sets, in order.
    pub cookies: Vec<FlashCookie>,
}

impl View for ResponseModel {
    type V = RespVal;

    open spec fn view(&self) -> RespVal {
        RespVal {
            status: self.status,
            location: match self.location {
                Some(l) => Some(l@),
                None => None,
            },
            cookies: cookie_views(self.cookies@),
        }
    }
}

/// The response with a fresh flash cookie holding `data` appended; its other
/// parts are kept as they are.
pub open spec fn spec_attach(r: RespVal, data: Seq<char>) -> RespVal {
    RespVal {
        status: r.status,
        location: r.location,
        cookies: r.cookies.push(spec_flash_cookie(data)),
    }
}

/// What rendering a flash response yields: the delegate exactly as it was,
/// and, where a message is present, a fresh flash cookie holding the
/// message's JSON encoding appended after the delegate's own cookies.
pub open spec fn spec_respond(delegate: RespVal, message: Option<Seq<char>>) -> RespVal {
    match message {
        Some(m) => spec_attach(delegate, spec_json_encode_str(m)),
        None => delegate,
    }
}

/// The view of an optional message.
pub open spec fn spec_opt_view(message: Option<String>) -> Option<Seq<char>> {
    match message {
        Some(m) => Some(m@),
        None => None,
    }
}

/// Appends a fresh flash cookie holding `data` to the response, leaving its
/// status, location, and earlier cookies unchanged.
pub fn attach_flash_cookie(resp: &mut ResponseModel, data: String)
    ensures
        final (resp)@ == spec_attach(old(resp)@, data@),
{
    let ghost data_view = data@;
    let c = FlashCookie::flash(data);
    resp.cookies.push(c);
    proof {
        assert(cookie_views(resp.cookies@) =~= cookie_views(old(resp).cookies@).push(
            spec_flash_cookie(data_view),
        ));
    }
}

/// A response that sets a flash message: a delegate response of type `R`
/// paired with an optional message of type `M`, to be attached as the flash
/// cookie when the response is rendered.
pub struct FlashResponse<R, M> {
    delegate_to: R,
    message: Option<FlashMessage<M>>,
}

impl<R, M> FlashResponse<R, M> {
    /// The response the rendering delegates to.
    pub closed spec fn spec_delegate(&self) -> R {
        self.delegate_to
    }

    /// The message to be attached, if any.
    pub closed spec fn spec_message(&self) -> Option<M> {
        match self.message {
            Some(m) => Some(m.inner()),
            None => None,
        }
    }

    /// Constructs a new flash response with a desired message and response.
    ///
    /// The message is saved in a cookie when the response is rendered and can
    /// be extracted on the next request. In the typical use the response is a
    /// redirect to a page that will display the message.
    pub fn new(message: Option<M>, response: R) -> (r: Self)
        ensures
            r.spec_delegate() == response,
            r.spec_message() == message,
    {
        Self {
            delegate_to: response,
            message: match message {
                Some(m) => Some(FlashMessage::new(m)),
                None => None,
            },
        }
    }
}

impl<M> FlashResponse<ResponseModel, M> {
    /// Creates a flash response that redirects to a given location. The
    /// response code is 303, See Other, so the client performs a GET request
    /// on the resource it is redirected to.
    pub fn with_redirect(message: M, location: &str) -> (r: Self)
        ensures
            r.spec_delegate()@.status == 303,
            r.spec_delegate()@.location == Some(location@),
            r.spec_delegate()@.cookies == Seq::<CookieVal>::empty(),
            r.spec_message() == Some(message),
    {
        let response = ResponseModel { status: 303, location: Some(location.to_owned()), cookies: Vec::new() };
        proof {
            assert(cookie_views(response.cookies@) =~= Seq::<CookieVal>::empty());
        }
        Self::new(Some(message), response)
    }
}

impl FlashResponse<ResponseModel, String> {
    /// Renders the wrapped response: the delegate's status, location and
    /// cookies are kept exactly, and where a message is present its JSON
    /// encoding is attached as a fresh flash cookie.
    pub fn respond_to(self) -> (r: ResponseModel)
        ensures
            r@ == spec_respond(self.spec_delegate()@, spec_opt_view(self.spec_message())),
    {
        let FlashResponse { delegate_to: mut response, message } = self;
        if let Some(msg) = message {
            let inner = msg.into_inner();
            let data = to_json_string(&inner);
            attach_flash_cookie(&mut response, data);
        }
        response
    }
}

/// Law: a flash response carrying message `v`, over a delegate that sets no
/// flash cookie of its own, renders to a response with exactly one cookie
/// named `_flash`, and that cookie's value is the JSON encoding of `v`.
pub proof fn lemma_flash_response_sets_one_cookie(delegate: RespVal, v: Seq<char>)
    requires
        count_named(delegate.cookies, spec_flash_cookie_name()) == 0,
    ensures
        count_named(spec_respond(delegate, Some(v)).cookies, spec_flash_cookie_name()) == 1,
        first_named(spec_respond(delegate, Some(v)).cookies, spec_flash_cookie_name()) == Some(
            spec_flash_cookie(spec_json_encode_str(v)),
        ),
{
    lemma_first_named_none_iff_count_zero(delegate.cookies, spec_flash_cookie_name());
    lemma_named_push(
        delegate.cookies,
        spec_flash_cookie(spec_json_encode_str(v)),
        spec_flash_cookie_name(),
    );
}

} // verus!
