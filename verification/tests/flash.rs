use actix_web_flash::cookie::flash_cookie_name;
use actix_web_flash::middleware::{cleanup_action, cleanup_response};
use actix_web_flash::{
    decode_flash, FlashCookie, FlashError, FlashMessage, FlashMiddleware, FlashResponse,
    ResponseModel,
};

/// A cookie as a request would carry it: name and value, nothing else set.
fn request_cookie(name: &str, value: &str) -> FlashCookie {
    FlashCookie { name: name.to_owned(), value: value.to_owned(), path: None, expires: None }
}

/// A plain response that sets no cookie of its own.
fn ok_response() -> ResponseModel {
    ResponseModel { status: 200, location: None, cookies: Vec::new() }
}

/// Ensure the response properly sets the `_flash` cookie.
#[test]
fn sets_cookie() {
    let msg = "Test Message".to_owned();
    let responder = FlashResponse::new(Some(msg.clone()), ok_response());

    let resp = responder.respond_to();

    let cookies: Vec<&FlashCookie> =
        resp.cookies.iter().filter(|c| c.name == "_flash").collect();
    assert_eq!(cookies.len(), 1);
    assert_eq!(cookies[0].name, "_flash");
    // JSON serialization means the string is in quotes
    assert_eq!(cookies[0].value, format!("\"{}\"", msg));
}

/// Ensure the flash message is extracted from the `_flash` cookie.
#[test]
fn get_cookie() {
    let cookies = vec![request_cookie("_flash", "\"Test Message\"")];
    let msg = FlashMessage::<String>::from_request(&cookies).unwrap();
    assert_eq!(msg.into_inner(), "Test Message");
}

/// Ensure improper cookie contents lead to an error.
#[test]
fn bad_request() {
    let cookies = vec![request_cookie("_flash", "Missing quotes")];
    let err = FlashMessage::<String>::from_request(&cookies).unwrap_err();
    // Don't return raw serialization errors
    assert_eq!(err, FlashError::InvalidFlashCookie);
    assert_eq!(err.message(), "Invalid flash cookie");
    assert_eq!(err.status_code(), 400);
}

/// A redirect-with-message response carries the See Other status and the
/// message as the `_flash` cookie.
#[test]
fn cookie_is_set() {
    let responder = FlashResponse::with_redirect(
        "This is the message".to_owned(),
        "/show_flash",
    );
    let resp = responder.respond_to();

    assert_eq!(resp.status, 303);
    assert_eq!(resp.location.as_deref(), Some("/show_flash"));

    let cookie = resp.cookies.iter().find(|c| c.name == "_flash").unwrap();
    assert_eq!(cookie.value, "\"This is the message\"");
}

/// A request that carried the cookie, answered without a new message, has the
/// cookie cleared: emptied and expired at an instant in the past.
#[test]
fn cookie_is_unset() {
    let request_cookies = vec![request_cookie("_flash", "To be deleted")];
    let request_had_flash = request_cookies.iter().any(|c| c.name == "_flash");
    let mut resp = ok_response();

    cleanup_response(request_had_flash, &mut resp);

    let cookie = resp.cookies.iter().find(|c| c.name == "_flash").unwrap();
    assert_eq!(cookie.value, "");
    // the Unix epoch lies in the past
    assert_eq!(cookie.expires, Some(0));
}

/// An absent cookie is its own failure, distinct from an undecodable one.
#[test]
fn no_cookie_is_its_own_error() {
    let err = FlashMessage::<String>::from_request(&Vec::new()).unwrap_err();
    assert_eq!(err, FlashError::NoFlashCookie);
    assert_eq!(err.message(), "No flash cookie");
    assert_eq!(err.status_code(), 400);

    let other = vec![request_cookie("session", "abc")];
    let err = FlashMessage::<String>::from_request(&other).unwrap_err();
    assert_eq!(err, FlashError::NoFlashCookie);
}

/// The extractor's decision over every parse outcome.
#[test]
fn decode_flash_decision() {
    assert_eq!(
        decode_flash::<u32>(None).unwrap_err(),
        FlashError::NoFlashCookie
    );
    assert_eq!(
        decode_flash::<u32>(Some(None)).unwrap_err(),
        FlashError::InvalidFlashCookie
    );
    assert_eq!(decode_flash::<u32>(Some(Some(7))).unwrap().into_inner(), 7);
}

/// Lookup by name takes the earliest cookie that bears it.
#[test]
fn first_flash_cookie_wins() {
    let cookies = vec![
        request_cookie("session", "xyz"),
        request_cookie("_flash", "\"first\""),
        request_cookie("_flash", "not json"),
    ];
    let msg = FlashMessage::<String>::from_request(&cookies).unwrap();
    assert_eq!(msg.into_inner(), "first");
}

/// Without a message, rendering returns the delegate response unchanged.
#[test]
fn respond_without_message_is_delegate() {
    let delegate = ResponseModel {
        status: 404,
        location: Some("/elsewhere".to_owned()),
        cookies: vec![request_cookie("session", "abc")],
    };
    let resp = FlashResponse::new(None::<String>, delegate).respond_to();
    assert_eq!(resp.status, 404);
    assert_eq!(resp.location.as_deref(), Some("/elsewhere"));
    assert_eq!(resp.cookies.len(), 1);
    assert_eq!(resp.cookies[0].name, "session");
    assert_eq!(resp.cookies[0].value, "abc");
}

/// The delegate's own cookies stay ahead of the appended flash cookie, and
/// the delegate's status is kept.
#[test]
fn delegate_is_preserved() {
    let delegate = ResponseModel {
        status: 201,
        location: None,
        cookies: vec![request_cookie("session", "abc")],
    };
    let resp = FlashResponse::new(Some("note".to_owned()), delegate).respond_to();
    assert_eq!(resp.status, 201);
    assert_eq!(resp.cookies.len(), 2);
    assert_eq!(resp.cookies[0].name, "session");
    assert_eq!(resp.cookies[1].name, "_flash");
    assert_eq!(resp.cookies[1].value, "\"note\"");
    assert_eq!(resp.cookies[1].path.as_deref(), Some("/"));
}

/// A message that needs JSON escaping survives the round trip from response
/// cookie to the next request's extractor.
#[test]
fn message_round_trip() {
    let msg = "a \"quoted\" message, with \\ and novel \u{2603} content".to_owned();
    let resp = FlashResponse::new(Some(msg.clone()), ok_response()).respond_to();
    let cookie = resp.cookies.into_iter().find(|c| c.name == "_flash").unwrap();
    // the value is encoded, not the bare message
    assert_ne!(cookie.value, msg);

    let next_request = vec![request_cookie("_flash", &cookie.value)];
    let read = FlashMessage::<String>::from_request(&next_request).unwrap();
    assert_eq!(read.into_inner(), msg);
}

/// The empty message is encoded and read back like any other.
#[test]
fn empty_message_round_trip() {
    let resp = FlashResponse::new(Some(String::new()), ok_response()).respond_to();
    let cookie = resp.cookies.into_iter().find(|c| c.name == "_flash").unwrap();
    assert_eq!(cookie.value, "\"\"");

    let next_request = vec![request_cookie("_flash", &cookie.value)];
    let read = FlashMessage::<String>::from_request(&next_request).unwrap();
    assert_eq!(read.into_inner(), "");
}

/// A response that renews the flash message is left alone by the cleaner.
#[test]
fn cleanup_leaves_renewed_message() {
    let mut resp = FlashResponse::new(Some("renewed".to_owned()), ok_response()).respond_to();
    cleanup_response(true, &mut resp);
    assert_eq!(resp.cookies.len(), 1);
    assert_eq!(resp.cookies[0].value, "\"renewed\"");
}

/// A request that carried no flash cookie needs no cleanup.
#[test]
fn cleanup_without_request_cookie_is_noop() {
    let mut resp = ok_response();
    cleanup_response(false, &mut resp);
    assert!(resp.cookies.is_empty());
}

/// Running the cleaner twice changes nothing beyond the first run.
#[test]
fn cleanup_is_idempotent() {
    let mut resp = ok_response();
    cleanup_response(true, &mut resp);
    let after_once: Vec<(String, String)> =
        resp.cookies.iter().map(|c| (c.name.clone(), c.value.clone())).collect();

    cleanup_response(true, &mut resp);
    let after_twice: Vec<(String, String)> =
        resp.cookies.iter().map(|c| (c.name.clone(), c.value.clone())).collect();

    assert_eq!(after_once, after_twice);
    assert_eq!(resp.cookies.len(), 1);
}

/// The cleaner's decision as a value: the removal directive exactly when the
/// request carried the cookie and the response set none.
#[test]
fn cleanup_action_decision() {
    let c = cleanup_action(true, false).unwrap();
    assert_eq!(c.name, "_flash");
    assert_eq!(c.value, "");
    assert_eq!(c.expires, Some(0));

    assert!(cleanup_action(true, true).is_none());
    assert!(cleanup_action(false, false).is_none());
    assert!(cleanup_action(false, true).is_none());
}

/// The freshly set flash cookie is rooted at the application root.
#[test]
fn flash_cookie_shape() {
    let c = FlashCookie::flash("\"x\"".to_owned());
    assert_eq!(c.name, "_flash");
    assert_eq!(c.value, "\"x\"");
    assert_eq!(c.path.as_deref(), Some("/"));
    assert_eq!(c.expires, None);
    assert_eq!(flash_cookie_name(), "_flash");
}

/// The middleware wraps and hands back the service it was given.
#[test]
fn middleware_wraps_service() {
    let wrapper = FlashMiddleware::default().new_transform(5u32);
    assert_eq!(wrapper.into_inner(), 5u32);
}

/// A message value survives construction and retrieval.
#[test]
fn message_new_into_inner() {
    let m = FlashMessage::new("payload".to_owned());
    assert_eq!(m.into_inner(), "payload");
}
