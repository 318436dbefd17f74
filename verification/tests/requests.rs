use footager::admin::{admin_auth, Admin, AdminResponse, AuthRejection};
use footager::download::{
    after_site_run, handler_response, keeps_waiting, not_found_message, DownloadWatch, HandlerNext,
    WAIT_LIMIT_SECS,
};
use footager::limiter::{Acquire, MyLayer, PermitSlot, Readiness};
use footager::selenium::Selenium;
use footager::user::{FootageUserRequest, FootageUserResponse};

#[test]
fn admin_auth_needs_text_header() {
    assert!(admin_auth(Some(b"Bearer token".as_slice())).is_ok());
    assert!(admin_auth(Some(b"with\ttab".as_slice())).is_ok());
    assert!(admin_auth(Some(b"".as_slice())).is_ok());
    assert_eq!(admin_auth(None), Err(AuthRejection::Unauthorized));
    assert_eq!(admin_auth(Some(&[0x01u8][..])), Err(AuthRejection::Unauthorized));
    assert_eq!(admin_auth(Some(&[0xC3u8, 0xA9][..])), Err(AuthRejection::Unauthorized));
    assert_eq!(admin_auth(Some(&[127u8][..])), Err(AuthRejection::Unauthorized));
    assert_eq!(AuthRejection::Unauthorized.status_code(), 401);
}

#[test]
fn admin_values() {
    let a = Admin::new("admin".to_string(), "787458".to_string());
    assert_eq!(a.name(), "admin");
    assert_eq!(a.passwd(), "787458");
    let r = AdminResponse::new("ok".to_string());
    assert_eq!(r.message(), "ok");
}

#[test]
fn footage_request_values() {
    let r = FootageUserRequest::new("user".to_string(), "https://domain.com".to_string());
    assert_eq!(r.name(), "user");
    assert_eq!(r.url(), "https://domain.com");
    assert_eq!(r.url, "https://domain.com");
    assert_ne!(FootageUserResponse::Success, FootageUserResponse::BadRequest);
}

#[test]
fn layer_limit() {
    assert_eq!(MyLayer::new(2).limit(), 2);
}

#[test]
fn permit_slot_protocol() {
    let mut slot: PermitSlot<u32> = PermitSlot::new();
    assert!(!slot.is_held());
    assert_eq!(slot.record_poll(Acquire::Waiting), Readiness::Pending);
    assert_eq!(slot.take_permit(), None);
    assert_eq!(slot.record_poll(Acquire::Closed), Readiness::Pending);
    assert!(!slot.is_held());
    assert_eq!(slot.record_poll(Acquire::Granted(7)), Readiness::Ready);
    assert!(slot.is_held());
    assert_eq!(slot.record_poll(Acquire::Waiting), Readiness::Pending);
    assert_eq!(slot.take_permit(), Some(7));
    assert_eq!(slot.take_permit(), None);
}

#[test]
fn download_watch_finds_file_case_insensitively() {
    let mut w = DownloadWatch::new("Morning Has Come");
    assert!(w.needs_listing());
    let names = vec!["other.wav".to_string(), "MORNING HAS COME.wav".to_string(), "morning has come (1).wav".to_string()];
    assert_eq!(w.observe_listing(&names), Some(1));
    assert!(!w.needs_listing());
    assert_eq!(w.observe_listing(&names), None);
}

#[test]
fn download_watch_no_match() {
    let mut w = DownloadWatch::new("302105");
    assert_eq!(w.observe_listing(&vec!["a.mp4".to_string()]), None);
    assert!(w.needs_listing());
    assert_eq!(w.observe_listing(&vec!["clip-302105-hd.mp4".to_string()]), Some(0));
}

#[test]
fn download_watch_waits_for_size_to_settle() {
    let mut w = DownloadWatch::new("x");
    assert!(!w.observe_size(0));
    assert!(!w.observe_size(0));
    assert!(!w.observe_size(10));
    assert!(!w.observe_size(20));
    assert!(w.observe_size(20));
}

#[test]
fn handler_decisions() {
    assert_eq!(after_site_run(Ok("302105".to_string())), HandlerNext::WaitForFile("302105".to_string()));
    assert_eq!(after_site_run(Ok(String::new())), HandlerNext::Finished(Ok("sss".to_string())));
    assert_eq!(after_site_run(Err("boom".to_string())), HandlerNext::Finished(Err("boom".to_string())));
    assert_eq!(handler_response(Ok("p".to_string())), (200, "Request was received".to_string()));
    assert_eq!(handler_response(Err("timeout".to_string())), (500, "timeout".to_string()));
}

#[test]
fn selenium_starts_unconnected() {
    let s = Selenium::new();
    assert!(s.get_driver().is_none());
    assert!(s.current_driver.is_none());
}

#[test]
fn watch_gives_up_after_an_hour() {
    assert_eq!(WAIT_LIMIT_SECS, 3600);
    assert!(keeps_waiting(0));
    assert!(keeps_waiting(3599));
    assert!(!keeps_waiting(3600));
    assert!(!keeps_waiting(u64::MAX));
    assert_eq!(not_found_message(), "File not found");
}
