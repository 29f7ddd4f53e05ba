use live_popup::models::{
    default_display_duration, default_enabled, default_popup_type, default_repeat_mode, ApiResponse,
};
use live_popup::query::confirms_existence;
use live_popup::reply::{bad_request, failure, not_found, ok, DbError, Reply};

#[test]
fn defaults() {
    assert_eq!(default_popup_type(), "product_card");
    assert_eq!(default_repeat_mode(), "once");
    assert_eq!(default_display_duration(), 10);
    assert!(default_enabled());
}

#[test]
fn envelopes() {
    let s = ApiResponse::success(5u8);
    assert_eq!((s.code, s.message.as_str(), s.data), (0, "success", Some(5)));
    let e: ApiResponse<u8> = ApiResponse::error(409, "conflict".to_string());
    assert_eq!((e.code, e.message.as_str(), e.data), (409, "conflict", None));
}

#[test]
fn replies_agree_with_their_status() {
    let r: Reply<u8> = ok(1);
    assert_eq!((r.status, r.body.code, r.body.data), (200, 0, Some(1)));
    let r: Reply<u8> = not_found("nope");
    assert_eq!((r.status, r.body.code), (404, 404));
    let r: Reply<u8> = bad_request("bad");
    assert_eq!((r.status, r.body.code, r.body.message.as_str()), (400, 400, "bad"));
    let r: Reply<u8> = failure(503, "later".to_string());
    assert_eq!((r.status, r.body.code, r.body.data), (503, 503, None));
}

#[test]
fn existence_answers() {
    assert!(confirms_existence(Ok(1)));
    assert!(!confirms_existence(Ok(0)));
    assert!(!confirms_existence(Err(DbError { message: "x".to_string() })));
}
