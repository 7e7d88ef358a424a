use magic_links::error::ErrorResponseType;
use magic_links::events::{EventLevel, EventType, EventsListenParams, EventsRequest};
use magic_links::link::{IdxMagicLinkPasswordUser, LinkRequest, MagicLink};
use magic_links::mail::{
    enqueue_failure, notification_job, reset_link, reset_subject, send_pwd_reset, send_pwd_reset_info, sender,
    EMail, MailBody, WorkerStep,
};
use magic_links::store::MagicLinkStore;
use magic_links::usage::MagicLinkUsage;

#[test]
fn test_magic_link_usage_conversions() {
    let ml = MagicLinkUsage::NewUser(None);
    let s = ml.to_string();
    let ml_from = MagicLinkUsage::try_from(&s).unwrap();
    assert_eq!(ml, ml_from);

    let ml = MagicLinkUsage::NewUser(Some("custom.uri.com".to_string()));
    let s = ml.to_string();
    let ml_from = MagicLinkUsage::try_from(&s).unwrap();
    assert_eq!(ml, ml_from);

    let ml = MagicLinkUsage::PasswordReset(None);
    let s = ml.to_string();
    let ml_from = MagicLinkUsage::try_from(&s).unwrap();
    assert_eq!(ml, ml_from);

    let ml = MagicLinkUsage::PasswordReset(Some("custom.uri.com".to_string()));
    let s = ml.to_string();
    let ml_from = MagicLinkUsage::try_from(&s).unwrap();
    assert_eq!(ml, ml_from);

    let ml = MagicLinkUsage::EmailChange("admin@localhost.de".to_string());
    let s = ml.to_string();
    let ml_from = MagicLinkUsage::try_from(&s).unwrap();
    assert_eq!(ml, ml_from);
}

#[test]
fn usage_encodings_are_exact() {
    assert_eq!(
        MagicLinkUsage::EmailChange("a@b.de".to_string()).to_string(),
        "email_change$a@b.de"
    );
    assert_eq!(MagicLinkUsage::NewUser(None).to_string(), "new_user");
    assert_eq!(
        MagicLinkUsage::PasswordReset(Some("x$y".to_string())).to_string(),
        "password_reset$x$y"
    );
    assert_eq!(
        MagicLinkUsage::try_from("password_reset$x$y").unwrap(),
        MagicLinkUsage::PasswordReset(Some("x$y".to_string()))
    );
    assert_eq!(
        MagicLinkUsage::try_from("new_user$").unwrap(),
        MagicLinkUsage::NewUser(Some(String::new()))
    );
    assert_eq!(
        MagicLinkUsage::try_from("new_user").unwrap(),
        MagicLinkUsage::NewUser(None)
    );
    for s in ["email_change", "email_change$"] {
        let e = MagicLinkUsage::try_from(s).unwrap_err();
        assert_eq!(e.error, ErrorResponseType::InvalidUsage);
    }
}

#[test]
fn empty_optional_payload_round_trips() {
    for u in [
        MagicLinkUsage::NewUser(Some(String::new())),
        MagicLinkUsage::PasswordReset(Some(String::new())),
        MagicLinkUsage::PasswordReset(None),
    ] {
        assert_eq!(MagicLinkUsage::try_from(&u.to_string()).unwrap(), u);
    }
}

#[test]
fn unknown_usage_tag_is_rejected() {
    for s in ["", "reset", "email$a", "New_user", "$new_user"] {
        let e = MagicLinkUsage::try_from(s).unwrap_err();
        assert_eq!(e.error, ErrorResponseType::InvalidUsage);
    }
}

fn link(exp: i64, used: bool, cookie: Option<&str>) -> MagicLink {
    MagicLink {
        id: "id0".to_string(),
        user_id: "user1".to_string(),
        csrf_token: "csrf0".to_string(),
        cookie: cookie.map(|c| c.to_string()),
        exp,
        used,
        usage: "password_reset".to_string(),
    }
}

fn request(cookie: Option<&str>, csrf: Option<&str>) -> LinkRequest {
    LinkRequest {
        binding_cookie: cookie.map(|c| c.to_string()),
        csrf_header: csrf.map(|c| c.to_string()),
    }
}

#[test]
fn fresh_link_validates() {
    let l = link(1000, false, None);
    assert!(l.validate_at("user1", &request(None, Some("csrf0")), true, true, 1000).is_ok());
    assert!(l.validate_at("user1", &request(None, None), false, true, 10).is_ok());
}

#[test]
fn expiry_boundary() {
    let l = link(1000, false, None);
    let req = request(None, Some("csrf0"));
    let e = l.validate_at("user1", &req, true, true, 1001).unwrap_err();
    assert_eq!(e.error, ErrorResponseType::BadRequest);
    assert_eq!(e.message, "This link has expired already");
    assert!(l.validate_at("user1", &req, true, true, 999).is_ok());
}

#[test]
fn used_link_always_fails() {
    let l = link(i64::MAX, true, None);
    let e = l.validate_at("user1", &request(None, Some("csrf0")), true, true, 0).unwrap_err();
    assert_eq!(e.error, ErrorResponseType::BadRequest);
    assert_eq!(e.message, "The requested passwort reset link was already used");
    assert!(l.validate_at("user1", &request(None, None), false, false, 0).is_err());
}

#[test]
fn wrong_user_fails() {
    let l = link(1000, false, None);
    let e = l.validate_at("user2", &request(None, None), false, true, 0).unwrap_err();
    assert_eq!(e.error, ErrorResponseType::BadRequest);
    assert_eq!(e.message, "The user id is invalid");
}

#[test]
fn binding_cookie_modes() {
    let l = link(1000, false, Some("abc"));
    let missing = request(None, None);
    let e = l.validate_at("user1", &missing, false, true, 0).unwrap_err();
    assert_eq!(e.error, ErrorResponseType::Forbidden);
    assert!(l.validate_at("user1", &missing, false, false, 0).is_ok());
    assert!(l.binding_mismatch(&missing));

    let wrong = request(Some("rauthy-pwd-reset=abd"), None);
    assert!(l.validate_at("user1", &wrong, false, true, 0).is_err());
    assert!(l.binding_mismatch(&wrong));

    let right = request(Some("rauthy-pwd-reset=abc"), None);
    assert!(l.validate_at("user1", &right, false, true, 0).is_ok());
    assert!(!l.binding_mismatch(&right));
}

#[test]
fn csrf_header_checks() {
    let l = link(1000, false, None);
    let e = l.validate_at("user1", &request(None, None), true, true, 0).unwrap_err();
    assert_eq!(e.error, ErrorResponseType::Unauthorized);
    assert_eq!(e.message, "CSRF Token is missing");
    let e = l.validate_at("user1", &request(None, Some("csrf1")), true, true, 0).unwrap_err();
    assert_eq!(e.error, ErrorResponseType::Unauthorized);
    assert_eq!(e.message, "Invalid CSRF Token");
    assert!(l.validate_at("user1", &request(None, Some("csrf0")), true, true, 0).is_ok());
}

#[test]
fn validate_now_refuses_expired_link() {
    let l = link(0, false, None);
    let e = l.validate("user1", &request(None, None), false, true).unwrap_err();
    assert_eq!(e.error, ErrorResponseType::BadRequest);
    let l = link(i64::MAX, false, None);
    assert!(l.validate("user1", &request(None, None), false, true).is_ok());
}

#[test]
fn password_reset_end_to_end() {
    let mut store = MagicLinkStore::new();
    let now = 1_700_000_000;
    let mut l = MagicLink::create_at(
        &mut store,
        "a".repeat(64),
        "b".repeat(48),
        "user1".to_string(),
        15,
        MagicLinkUsage::PasswordReset(None),
        now,
    )
    .unwrap();
    assert_eq!(l.exp, now + 900);
    assert_eq!(l.usage, "password_reset");
    let req = request(None, Some(&"b".repeat(48)));
    assert!(l.validate_at("user1", &req, true, true, now).is_ok());
    l.used = true;
    l.save(&mut store).unwrap();
    let stored = MagicLink::find(&store, &"a".repeat(64)).unwrap();
    assert!(stored.used);
    let e = stored.validate_at("user1", &req, true, true, now).unwrap_err();
    assert_eq!(e.error, ErrorResponseType::BadRequest);
}

#[test]
fn create_with_random_tokens() {
    let mut store = MagicLinkStore::new();
    let l = MagicLink::create(&mut store, "user1".to_string(), 15, MagicLinkUsage::NewUser(None))
        .unwrap();
    assert_eq!(l.id.len(), 64);
    assert_eq!(l.csrf_token.len(), 48);
    assert!(l.id.chars().all(|c| c.is_ascii_alphanumeric()));
    assert!(l.csrf_token.chars().all(|c| c.is_ascii_alphanumeric()));
    assert_ne!(l.id, l.csrf_token);
    assert!(l.cookie.is_none());
    assert!(!l.used);
    assert_eq!(l.usage, "new_user");
    assert!(l.validate("user1", &request(None, None), false, true).is_ok());
    assert_eq!(store.links.len(), 1);
}

#[test]
fn create_rejects_duplicates_and_overflow() {
    let mut store = MagicLinkStore::new();
    let u = MagicLinkUsage::NewUser(None);
    MagicLink::create_at(&mut store, "i1".into(), "c1".into(), "u".into(), 1, u.clone(), 0).unwrap();
    let e = MagicLink::create_at(&mut store, "i1".into(), "c2".into(), "u".into(), 1, u.clone(), 0)
        .unwrap_err();
    assert_eq!(e.error, ErrorResponseType::Storage);
    let e = MagicLink::create_at(&mut store, "c1".into(), "c3".into(), "u".into(), 1, u.clone(), 0)
        .unwrap_err();
    assert_eq!(e.error, ErrorResponseType::Storage);
    let e = MagicLink::create_at(&mut store, "i2".into(), "c2".into(), "u".into(), i64::MAX, u, 0)
        .unwrap_err();
    assert_eq!(e.error, ErrorResponseType::BadRequest);
    assert_eq!(store.links.len(), 1);
}

#[test]
fn find_and_find_by_user() {
    let mut store = MagicLinkStore::new();
    let u = MagicLinkUsage::NewUser(None);
    MagicLink::create_at(&mut store, "i1".into(), "c1".into(), "u1".into(), 1, u.clone(), 0).unwrap();
    MagicLink::create_at(&mut store, "i2".into(), "c2".into(), "u2".into(), 1, u.clone(), 0).unwrap();
    MagicLink::create_at(&mut store, "i3".into(), "c3".into(), "u1".into(), 1, u, 0).unwrap();
    assert_eq!(MagicLink::find(&store, "i2").unwrap().user_id, "u2");
    assert_eq!(
        MagicLink::find(&store, "i4").unwrap_err().error,
        ErrorResponseType::NotFound
    );
    assert_eq!(MagicLink::find_by_user(&store, "u1".into()).unwrap().id, "i1");
    assert_eq!(
        MagicLink::find_by_user(&store, "u3".into()).unwrap_err().error,
        ErrorResponseType::NotFound
    );
}

#[test]
fn invalidate_all_email_change_is_selective() {
    let mut store = MagicLinkStore::new();
    let ec = |e: &str| MagicLinkUsage::EmailChange(e.to_string());
    MagicLink::create_at(&mut store, "i1".into(), "c1".into(), "u1".into(), 1, ec("a@x"), 0).unwrap();
    MagicLink::create_at(&mut store, "i2".into(), "c2".into(), "u2".into(), 1, ec("b@x"), 0).unwrap();
    MagicLink::create_at(
        &mut store,
        "i3".into(),
        "c3".into(),
        "u1".into(),
        1,
        MagicLinkUsage::PasswordReset(None),
        0,
    )
    .unwrap();
    let mut used = MagicLink::create_at(&mut store, "i4".into(), "c4".into(), "u1".into(), 1, ec("c@x"), 0)
        .unwrap();
    used.used = true;
    used.save(&mut store).unwrap();
    MagicLink::invalidate_all_email_change(&mut store, "u1").unwrap();
    let ids: Vec<&str> = store.links.iter().map(|l| l.id.as_str()).collect();
    assert_eq!(ids, vec!["i2", "i3"]);
}

#[test]
fn invalidate_moves_expiry_into_the_past() {
    let mut store = MagicLinkStore::new();
    let mut l = MagicLink::create_at(
        &mut store,
        "i1".into(),
        "c1".into(),
        "u1".into(),
        10,
        MagicLinkUsage::PasswordReset(None),
        1000,
    )
    .unwrap();
    l.invalidate_at(&mut store, 1000).unwrap();
    assert_eq!(l.exp, 990);
    assert_eq!(MagicLink::find(&store, "i1").unwrap().exp, 990);
    l.invalidate_at(&mut store, 5000).unwrap();
    assert_eq!(l.exp, 990);
    l.exp = i64::MAX;
    l.invalidate(&mut store).unwrap();
    assert!(l.exp < i64::MAX);
    let e = l.validate("u1", &request(None, None), false, true).unwrap_err();
    assert_eq!(e.message, "This link has expired already");
}

#[test]
fn save_keeps_one_way_transitions() {
    let mut store = MagicLinkStore::new();
    let mut l = MagicLink::create_at(
        &mut store,
        "i1".into(),
        "c1".into(),
        "u1".into(),
        10,
        MagicLinkUsage::PasswordReset(None),
        1000,
    )
    .unwrap();
    l.used = true;
    l.cookie = Some("abc".to_string());
    l.exp = 1200;
    l.save(&mut store).unwrap();
    let mut stale = l.clone();
    stale.used = false;
    stale.cookie = Some("other".to_string());
    stale.exp = 5000;
    stale.save(&mut store).unwrap();
    let row = MagicLink::find(&store, "i1").unwrap();
    assert!(row.used);
    assert_eq!(row.cookie.as_deref(), Some("abc"));
    assert_eq!(row.exp, 1200);
}

#[test]
fn index_from_link() {
    let l = link(0, false, None);
    let idx = IdxMagicLinkPasswordUser::from_magic_link(&l);
    assert_eq!(idx.user_id, "user1");
    assert_eq!(idx.id, "id0");
}

#[test]
fn reset_mail_parts() {
    assert_eq!(
        reset_link("https://iam.example", "u1", "abc"),
        "https://iam.example/users/u1/reset/abc"
    );
    assert_eq!(reset_subject("Ada", "Lovelace"), "Password Reset Request - Ada Lovelace");
    let p = send_pwd_reset("https://iam.example", "u1", "abc", 0, "Ada", "Lovelace").unwrap();
    assert_eq!(p.link, "https://iam.example/users/u1/reset/abc");
    assert!(p.exp.starts_with("1970-01-01"));
    assert_eq!(p.subject, "Password Reset Request - Ada Lovelace");
    assert!(send_pwd_reset("i", "u", "a", i64::MAX, "A", "B").is_none());
}

#[test]
fn reset_info_mail_parts() {
    let p = send_pwd_reset_info("https://iam.example", Some(86400)).unwrap();
    assert_eq!(p.link, "https://iam.example/auth/v1/account.html");
    assert!(p.exp.starts_with("1970-01-02"));
    assert_eq!(p.subject, "Password is about to expire");
    assert!(send_pwd_reset_info("https://iam.example", None).is_none());
}

#[test]
fn notification_job_fields() {
    let parts = send_pwd_reset("https://iam.example", "u1", "abc", 0, "Ada", "Lovelace").unwrap();
    let j = notification_job("ada@x.de", parts, "txt".to_string(), "<p>h</p>".to_string());
    assert_eq!(j.address, "ada@x.de");
    assert_eq!(j.subject, "Password Reset Request - Ada Lovelace");
    assert_eq!(j.text, "txt");
    assert_eq!(j.html.as_deref(), Some("<p>h</p>"));
}

#[test]
fn enqueue_timeout_logs_once() {
    assert!(enqueue_failure(true, "a@b").is_none());
    assert_eq!(
        enqueue_failure(false, "a@b").unwrap(),
        "Error sending magic link email request for user 'a@b'"
    );
}

fn job(html: Option<&str>) -> EMail {
    EMail {
        address: "a@b.de".to_string(),
        subject: "Hi".to_string(),
        text: "text".to_string(),
        html: html.map(|h| h.to_string()),
    }
}

#[test]
fn worker_steps() {
    assert!(matches!(sender(None, true), WorkerStep::Exit));
    assert!(matches!(sender(None, false), WorkerStep::Exit));
    match sender(Some(job(Some("<p>x</p>"))), true) {
        WorkerStep::LogOnly(a) => assert_eq!(a, "a@b.de"),
        other => panic!("unexpected {:?}", other),
    }
    match sender(Some(job(Some("<p>x</p>"))), false) {
        WorkerStep::Send(m) => {
            assert_eq!(m.to, "Hi <a@b.de>");
            assert_eq!(m.subject, "Hi");
            match m.body {
                MailBody::Alternative { text, html } => {
                    assert_eq!(text, "text");
                    assert_eq!(html, "<p>x</p>");
                }
                other => panic!("unexpected {:?}", other),
            }
        }
        other => panic!("unexpected {:?}", other),
    }
    match sender(Some(job(None)), false) {
        WorkerStep::Send(m) => assert!(matches!(m.body, MailBody::Plain(ref t) if t == "text")),
        other => panic!("unexpected {:?}", other),
    }
}

#[test]
fn events_validation() {
    let p = EventsListenParams { latest: Some(1000), level: Some(EventLevel::Info) };
    assert!(p.validate());
    let p = EventsListenParams { latest: Some(1001), level: None };
    assert!(!p.validate());
    let r = EventsRequest { from: 1719784800, until: None, level: EventLevel::Critical, typ: Some(EventType::Test) };
    assert!(r.validate());
    let r = EventsRequest { from: 1719784799, until: None, level: EventLevel::Notice, typ: None };
    assert!(!r.validate());
    let r = EventsRequest { from: 1719784800, until: Some(1), level: EventLevel::Warning, typ: None };
    assert!(!r.validate());
}
