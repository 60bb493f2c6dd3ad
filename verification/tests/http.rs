use url_shortener::config::{listen_addr, DEFAULT_ADDR};
use url_shortener::http::{
    cache_control_value, error_body, fixed_text, get_url_failure_reply, get_url_success_reply, health_reply,
    post_url_failure_reply, post_url_success_status, put_url_failure_reply,
    put_url_success_status, Error, ErrorReply, ErrorText, GetUrlFailure, PostUrlFailure,
    PutUrlFailure, UrlCreationStatus,
};

#[test]
fn get_replies() {
    let reply = get_url_success_reply("https://example.com/".to_string(), 3600);
    assert_eq!(reply.status, 307);
    assert_eq!(reply.location, "https://example.com/");
    assert_eq!(reply.cache_control, "public, max-age=3600");
    assert_eq!(
        get_url_failure_reply(GetUrlFailure::NotFound),
        ErrorReply { status: 404, text: ErrorText::NotFound }
    );
    assert_eq!(
        get_url_failure_reply(GetUrlFailure::Db),
        ErrorReply { status: 500, text: ErrorText::InternalServerError }
    );
}

#[test]
fn put_replies() {
    assert_eq!(put_url_success_status(UrlCreationStatus::NewlyCreated), 201);
    assert_eq!(put_url_success_status(UrlCreationStatus::AlreadyExists), 200);
    assert_eq!(
        put_url_failure_reply(PutUrlFailure::ShortIdAlreadyTaken),
        ErrorReply { status: 409, text: ErrorText::Described }
    );
    for f in [
        PutUrlFailure::TimestampParse,
        PutUrlFailure::InvalidExpirationTime,
        PutUrlFailure::InvalidShortId,
        PutUrlFailure::InvalidUrl,
    ] {
        assert_eq!(put_url_failure_reply(f), ErrorReply { status: 400, text: ErrorText::Described });
    }
    assert_eq!(
        put_url_failure_reply(PutUrlFailure::Internal),
        ErrorReply { status: 500, text: ErrorText::InternalServerError }
    );
}

#[test]
fn post_replies() {
    assert_eq!(post_url_success_status(), 200);
    for f in [
        PostUrlFailure::TimestampParse,
        PostUrlFailure::InvalidExpirationTime,
        PostUrlFailure::InvalidUrl,
    ] {
        assert_eq!(post_url_failure_reply(f), ErrorReply { status: 400, text: ErrorText::Described });
    }
    assert_eq!(
        post_url_failure_reply(PostUrlFailure::Internal),
        ErrorReply { status: 500, text: ErrorText::InternalServerError }
    );
}

#[test]
fn texts_and_health() {
    assert_eq!(fixed_text(ErrorText::NotFound), Some("Not found"));
    assert_eq!(fixed_text(ErrorText::InternalServerError), Some("Internal server error"));
    assert_eq!(fixed_text(ErrorText::Described), None);
    assert_eq!(health_reply(), (200, "OK"));
}

#[test]
fn error_body_keeps_its_parts() {
    let e = Error::new("Not found".to_string(), "abc".to_string());
    assert_eq!(e.error(), "Not found");
    assert_eq!(e.error_id(), "abc");
}

#[test]
fn listen_addr_defaults_to_loopback() {
    assert_eq!(listen_addr(None), "127.0.0.1:0");
    assert_eq!(DEFAULT_ADDR, "127.0.0.1:0");
    assert_eq!(listen_addr(Some("0.0.0.0:8080".to_string())), "0.0.0.0:8080");
}

#[test]
fn cache_control_values() {
    assert_eq!(cache_control_value(0), "public, max-age=0");
    assert_eq!(cache_control_value(9), "public, max-age=9");
    assert_eq!(cache_control_value(10), "public, max-age=10");
    assert_eq!(cache_control_value(86_400), "public, max-age=86400");
    assert_eq!(cache_control_value(u64::MAX), format!("public, max-age={}", u64::MAX));
}

#[test]
fn error_body_hides_internal_causes() {
    let internal = ErrorReply { status: 500, text: ErrorText::InternalServerError };
    let e = error_body(internal, "connection refused".to_string(), "id-1".to_string());
    assert_eq!(e.error(), "Internal server error");
    assert_eq!(e.error_id(), "id-1");
    let not_found = ErrorReply { status: 404, text: ErrorText::NotFound };
    assert_eq!(error_body(not_found, "x".to_string(), "id-2".to_string()).error(), "Not found");
    let described = ErrorReply { status: 400, text: ErrorText::Described };
    let e = error_body(described, "expiration time cannot be in the past".to_string(), "id-3".to_string());
    assert_eq!(e.error(), "expiration time cannot be in the past");
    assert_eq!(e.error_id(), "id-3");
}
