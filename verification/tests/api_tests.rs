use clipboard::{
    expire_date_from_clock, ONE_DAY_SECS,
    check_set_request, clipboard_lookup_id, default_clip_type, default_expire_date,
    env_value_or, expire_date_one_day_after, logger_settings, request_log_level, retrieve_action,
    record_saved_file, run_mode, upload_fields, ApiError, Clipboard, ClipboardType, HandlerState, LogLevel,
    ModelHandler, ModelHandlerOptions, RetrieveAction, SetClipboardReq,
};
use std::time::{SystemTime, UNIX_EPOCH};

fn now_secs() -> u64 {
    SystemTime::now().duration_since(UNIX_EPOCH).unwrap().as_secs()
}

#[test]
fn set_clipboard_req_test() {
    let data = r#"{"content":"test"}"#;
    let value: serde_json::Value = serde_json::from_str(data).unwrap();
    let req = SetClipboardReq::from_fields(
        String::from(value["content"].as_str().unwrap()),
        value.get("password").and_then(|p| p.as_str()).map(String::from),
        value.get("onetime").and_then(|o| o.as_bool()),
        value.get("cliptype").and_then(|t| t.as_u64()).map(|t| t as u8),
        value.get("expire_date").and_then(|d| d.as_u64()),
    )
    .unwrap();
    assert_eq!(req.cliptype, 0);
    assert_eq!(req.content.as_str(), "test");
    assert_eq!(req.expire_date > now_secs(), true);
    assert_eq!(req.onetime, false);
    assert_eq!(req.password, None);
}

#[test]
fn defaults() {
    assert_eq!(default_clip_type(), 0);
    let d = default_expire_date().unwrap();
    let now = now_secs();
    assert!(d >= now + 86400 - 5 && d <= now + 86400 + 5);
    assert_eq!(expire_date_one_day_after(1000), 87400);
}

fn request(content: &str, password: Option<&str>, cliptype: u8, expire_date: u64) -> SetClipboardReq {
    SetClipboardReq {
        content: String::from(content),
        password: password.map(String::from),
        onetime: true,
        cliptype,
        expire_date,
    }
}

#[test]
fn set_request_refusals_in_order() {
    let now = 1_000_000;
    assert_eq!(
        check_set_request(&request("", None, 9, 0), now).err(),
        Some(ApiError::ContentEmpty)
    );
    assert_eq!(
        check_set_request(&request("x", None, 9, now + 599), now).err(),
        Some(ApiError::ExpireTooSoon)
    );
    assert_eq!(
        check_set_request(&request("x", None, 9, now + 600), now).err(),
        Some(ApiError::WrongClipType)
    );
    assert_eq!(
        check_set_request(&request("x", None, 0, now + 600), now).err(),
        Some(ApiError::WrongClipType)
    );
}

#[test]
fn accepted_set_request() {
    let now = 1_000_000;
    let c = check_set_request(&request("hello", Some("pw"), 2, now + 600), now).unwrap();
    assert_eq!(c.clip_content, "hello");
    assert_eq!(c.clip_type, ClipboardType::Markdown);
    assert!(c.clip_onetime);
    assert!(c.is_lock);
    assert_eq!(c.password.as_deref(), Some("pw"));
    assert_eq!(c.expire_date, (now + 600) as i64);
    let open = check_set_request(&request("hello", None, 1, u64::MAX), now).unwrap();
    assert!(!open.is_lock);
    assert_eq!(open.password, None);
    assert_eq!(open.expire_date, -1);
}

#[test]
fn api_error_answers() {
    let cases = [
        (ApiError::ContentEmpty, 400, "content can not be empty"),
        (ApiError::ExpireTooSoon, 400, "expiredate must greater than 10 minutes"),
        (ApiError::WrongClipType, 400, "wrong cliptype"),
        (ApiError::PasswordRequired, 400, "password is required for this clipboard."),
        (ApiError::WrongPassword, 400, "wrong password."),
        (ApiError::NotFound, 404, "no resource has been found."),
        (ApiError::TaskIdRequired, 400, "[task_id] is required"),
        (ApiError::FilesRequired, 400, "[[]file] is required"),
        (ApiError::Internal, 500, ""),
    ];
    for (e, status, message) in cases {
        assert_eq!(e.status(), status);
        assert_eq!(e.message(), message);
    }
}

fn clip(expire_date: i64, is_lock: bool, password: &str, onetime: bool) -> Clipboard {
    Clipboard {
        id: String::from("abcde"),
        clip_type: 1,
        clip_content: String::from("c"),
        clip_onetime: onetime,
        expire_date,
        date_time: 0,
        is_lock,
        password: String::from(password),
    }
}

#[test]
fn retrieve_decisions() {
    assert_eq!(retrieve_action(&clip(10, false, "", false), "", 10), RetrieveAction::Expired);
    assert_eq!(retrieve_action(&clip(10, true, "h", true), "pw", 11), RetrieveAction::Expired);
    assert_eq!(
        retrieve_action(&clip(100, true, "h", false), "", 10),
        RetrieveAction::Reject(ApiError::PasswordRequired)
    );
    assert_eq!(
        retrieve_action(&clip(100, false, "", false), "", 10),
        RetrieveAction::Serve { destroy: false }
    );
    assert_eq!(
        retrieve_action(&clip(100, false, "", true), "anything", 10),
        RetrieveAction::Serve { destroy: true }
    );
}

#[test]
fn locked_clipboard_accepts_its_creation_password() {
    let stored = bcrypt::hash("password", 4).unwrap();
    assert_eq!(
        retrieve_action(&clip(100, true, &stored, false), "password", 10),
        RetrieveAction::Serve { destroy: false }
    );
    assert_eq!(
        retrieve_action(&clip(100, true, &stored, true), "password", 10),
        RetrieveAction::Serve { destroy: true }
    );
    assert_eq!(
        retrieve_action(&clip(100, true, &stored, false), "other", 10),
        RetrieveAction::Reject(ApiError::WrongPassword)
    );
    let field = "abc";
    let given = bcrypt::hash(field, 4).unwrap();
    assert_eq!(
        retrieve_action(&clip(100, true, field, true), &given, 10),
        RetrieveAction::Reject(ApiError::WrongPassword)
    );
}

#[test]
fn record_saved_file_prepends_or_fails() {
    let mut links: Vec<(String, String)> = vec![(String::from("a"), String::from("la"))];
    assert_eq!(
        record_saved_file(&mut links, String::from("b"), Some(String::from("lb"))),
        Ok(())
    );
    assert_eq!(
        links,
        vec![
            (String::from("b"), String::from("lb")),
            (String::from("a"), String::from("la"))
        ]
    );
    assert_eq!(
        record_saved_file(&mut links, String::from("c"), None),
        Err(ApiError::Internal)
    );
    assert_eq!(links.len(), 2);
}

#[test]
fn lookup_id_is_lower_case() {
    assert_eq!(clipboard_lookup_id("AbC12"), "abc12");
    assert_eq!(clipboard_lookup_id("ÀB"), "àb");
}

#[test]
fn upload_field_checks() {
    assert_eq!(upload_fields(None, None), Err(ApiError::TaskIdRequired));
    assert_eq!(upload_fields(None, Some(String::from("f"))), Err(ApiError::TaskIdRequired));
    assert_eq!(upload_fields(Some(String::from("t")), None), Err(ApiError::FilesRequired));
    assert_eq!(
        upload_fields(Some(String::from("t")), Some(String::from("f"))),
        Ok((String::from("t"), String::from("f")))
    );
}

#[test]
fn minio_clipboard_url_layout() {
    let state = HandlerState {
        model: ModelHandler::new(ModelHandlerOptions {
            key: String::from("k"),
            minio_public_path: String::new(),
            storage_access_prefix: String::new(),
        }),
        temp_path: String::from("tmp/"),
        minio_storage_prefix: String::from("http://localhost:9001/api/"),
    };
    assert_eq!(
        state.minio_clipboard_url("abcde", "x.png"),
        "http://localhost:9001/api/clipboard/abcde/x.png"
    );
}

#[test]
fn service_settings() {
    assert_eq!(env_value_or(Some(String::from("v")), "d"), "v");
    assert_eq!(env_value_or(None, "d"), "d");
    assert_eq!(run_mode("release"), "RELEASE");
    assert_eq!(run_mode("Release"), "RELEASE");
    assert_eq!(run_mode("debug"), "DEBUG");
    assert_eq!(run_mode("prod"), "DEBUG");
    let (main, http) = logger_settings("RELEASE", "./log/");
    assert_eq!(main.path, "./log/main.log");
    assert_eq!(main.name, "main");
    assert!(!main.plain);
    assert_eq!(http.path, "./log/http.log");
    assert_eq!(http.name, "http");
    assert!(http.plain);
    let (_, http) = logger_settings("DEBUG", "./log/");
    assert!(!http.plain);
    assert_eq!(request_log_level(200), LogLevel::Info);
    assert_eq!(request_log_level(399), LogLevel::Info);
    assert_eq!(request_log_level(400), LogLevel::Warn);
    assert_eq!(request_log_level(500), LogLevel::Warn);
}

#[test]
fn open_clipboard_is_served_as_requested() {
    let model = ModelHandler::new(ModelHandlerOptions {
        key: String::from("salt"),
        minio_public_path: String::new(),
        storage_access_prefix: String::new(),
    });
    let now = 1_000_000;
    let req = SetClipboardReq {
        content: String::from("shared text"),
        password: None,
        onetime: true,
        cliptype: 1,
        expire_date: now + 3600,
    };
    let c = check_set_request(&req, now).unwrap();
    let doc = clipboard::ClipboardModel::create_clipboard_document(&model, c, now).unwrap();
    let read = clipboard::ClipboardModel::retrieve_clipboard_document(&model, &doc).unwrap();
    assert_eq!(read.clip_content, "shared text");
    assert_eq!(read.clip_type, 1);
    assert_eq!(
        retrieve_action(&read, "whatever", now + 10),
        RetrieveAction::Serve { destroy: true }
    );
    assert_eq!(retrieve_action(&read, "", now + 3600), RetrieveAction::Expired);
}

#[test]
fn expire_date_from_clock_adds_a_day() {
    assert_eq!(expire_date_from_clock(Some(1000)), Some(1000 + ONE_DAY_SECS));
    assert_eq!(expire_date_from_clock(Some(u64::MAX - ONE_DAY_SECS)), Some(u64::MAX));
    assert_eq!(expire_date_from_clock(Some(u64::MAX - ONE_DAY_SECS + 1)), None);
    assert_eq!(expire_date_from_clock(None), None);
}

#[test]
fn from_fields_at_clock_fills_the_defaults() {
    let r = SetClipboardReq::from_fields_at_clock(
        String::from("c"),
        None,
        None,
        None,
        None,
        Some(5),
    )
    .unwrap();
    assert_eq!(r.expire_date, 5 + ONE_DAY_SECS);
    assert_eq!(r.cliptype, 0);
    assert!(!r.onetime);
    let given = SetClipboardReq::from_fields_at_clock(
        String::from("c"),
        Some(String::from("p")),
        Some(true),
        Some(2),
        Some(77),
        None,
    )
    .unwrap();
    assert_eq!(given.expire_date, 77);
    assert_eq!(given.cliptype, 2);
    assert!(given.onetime);
    assert!(SetClipboardReq::from_fields_at_clock(String::from("c"), None, None, None, None, None)
        .is_none());
}
