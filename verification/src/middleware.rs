//! The flash cleaner: middleware that runs after a response is produced and
//! deletes a stale flash cookie, so a message survives exactly one request
//! beyond the one that set it unless a handler renews it.

use vstd::prelude::*;

use crate::cookie::{
    cookie_views, find_cookie, first_named, flash_cookie_name, lemma_named_push,
    spec_flash_cookie_name, spec_removal_cookie, FlashCookie,
};
use crate::response::{ResponseModel, RespVal};

verus! {

/// What the cleaner does to a finished response, given whether the inbound
/// request carried the flash cookie: where it did and the response sets no
/// flash cookie of its own, the expiration directive is appended; otherwise
/// the response is left as it is.
pub open spec fn spec_cleanup(request_had_flash: bool, resp: RespVal) -> RespVal {
    if request_had_flash && first_named(resp.cookies, spec_flash_cookie_name()) is None {
        RespVal {
            status: resp.status,
            location: resp.location,
            cookies: resp.cookies.push(spec_removal_cookie()),
        }
    } else {
        resp
    }
}

/// The decision the cleaner takes, as a value: the cookie to append to the
/// response, or nothing where the response is to be left untouched. The
/// expiration directive is owed exactly when the request carried the flash
/// cookie and the response has not set a new one.
pub fn cleanup_action(request_had_flash: bool, response_sets_flash: bool) -> (r: Option<
    FlashCookie,
>)
    ensures
        (request_had_flash && !response_sets_flash) ==> (r matches Some(c) && c@
            == spec_removal_cookie()),
        !(request_had_flash && !response_sets_flash) ==> r is None,
{
    if request_had_flash && !response_sets_flash {
        Some(FlashCookie::removal())
    } else {
        None
    }
}

/// Appends the expiration directive to the response exactly when the request
/// carried the flash cookie and the response has not set a new one; otherwise
/// leaves the response untouched.
pub fn cleanup_response(request_had_flash: bool, resp: &mut ResponseModel)
    ensures
        final (resp)@ == spec_cleanup(request_had_flash, old(resp)@),
{
    if request_had_flash {
        let name = flash_cookie_name();
        if find_cookie(&resp.cookies, &name).is_none() {
            let c = FlashCookie::removal();
            resp.cookies.push(c);
            proof {
                assert(cookie_views(resp.cookies@) =~= cookie_views(old(resp).cookies@).push(
                    spec_removal_cookie(),
                ));
            }
        }
    }
}

/// Law: the cleaner is idempotent. Running it a second time over the same
/// request changes nothing: the flash cookie is by then either already
/// cleared or already renewed.
pub proof fn lemma_cleanup_idempotent(request_had_flash: bool, resp: RespVal)
    ensures
        spec_cleanup(request_had_flash, spec_cleanup(request_had_flash, resp)) == spec_cleanup(
            request_had_flash,
            resp,
        ),
{
    let once = spec_cleanup(request_had_flash, resp);
    if request_had_flash && first_named(resp.cookies, spec_flash_cookie_name()) is None {
        lemma_named_push(resp.cookies, spec_removal_cookie(), spec_flash_cookie_name());
        assert(first_named(once.cookies, spec_flash_cookie_name()) is Some);
    }
}

/// Takes care of deleting the flash cookies after their use.
///
/// Without this middleware a flash message is passed into every handler
/// requesting it until the cookie is overwritten by a newer message.
#[derive(Debug)]
pub struct FlashMiddleware;

impl Default for FlashMiddleware {
    /// The middleware carries no state: its default value is the middleware.
    fn default() -> (r: FlashMiddleware)
        ensures
            r == FlashMiddleware,
    {
        FlashMiddleware
    }
}

/// The actual flash middleware service: the wrapped service, which produces
/// the response the cleaner then inspects.
pub struct FlashMiddlewareServiceWrapper<S>(S);

impl FlashMiddleware {
    /// Wraps a service in the cleaning middleware service.
    pub fn new_transform<S>(&self, service: S) -> (r: FlashMiddlewareServiceWrapper<S>)
        ensures
            r.spec_service() == service,
    {
        FlashMiddlewareServiceWrapper(service)
    }
}

impl<S> FlashMiddlewareServiceWrapper<S> {
    /// The service the middleware wraps.
    pub closed spec fn spec_service(&self) -> S {
        self.0
    }

    /// Hands the wrapped service back.
    pub fn into_inner(self) -> (r: S)
        ensures
            r == self.spec_service(),
    {
        self.0
    }
}

} // verus!
