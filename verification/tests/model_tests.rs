use clipboard::{
    bcrypt_accepts, hash_password, id_alphabet, new_clipboard_id, read_clipboard_document,
    save_plan_with_tag, Clipboard, ClipboardDocument, ClipboardModel, ClipboardType,
    CreateClipboard, ModelHandler, ModelHandlerOptions, RetrieveAction, StorageModel, StoragePlan,
    retrieve_action,
    CLIPBOARD_ID_LEN,
};
use std::time::{SystemTime, UNIX_EPOCH};

fn test_handler() -> ModelHandler {
    ModelHandler::new(ModelHandlerOptions {
        key: String::from("test_salt"),
        minio_public_path: String::from(""),
        storage_access_prefix: String::from(""),
    })
}

fn now_secs() -> u64 {
    SystemTime::now().duration_since(UNIX_EPOCH).unwrap().as_secs()
}

fn empty_document() -> ClipboardDocument {
    ClipboardDocument {
        id: None,
        iv: None,
        clip_content: None,
        clip_onetime: None,
        is_lock: None,
        expire_date: None,
        password: None,
        date_time: None,
        clip_type: None,
    }
}

#[test]
fn clipboard_test() {
    let m = test_handler();
    let pass = "password";
    let now = now_secs();
    let doc = m
        .create_clipboard_document(
            CreateClipboard {
                clip_content: String::from("test 1"),
                clip_onetime: true,
                clip_type: ClipboardType::Normal,
                is_lock: true,
                password: Some(String::from(pass)),
                expire_date: now as i64 + (5 * 24 * 3600) as i64,
            },
            now,
        )
        .unwrap();
    let result = doc.id.clone().unwrap();

    assert_ne!(result, "");

    // retrieve clipboard
    let doc = m.retrieve_clipboard_document(&doc).unwrap();
    assert_ne!("", &doc.id);
    assert_eq!("test 1", &doc.clip_content);
    assert_eq!(true, doc.is_lock);
    assert_ne!(0, doc.date_time);
    assert_eq!(doc.clip_type as u8, 1);
}

#[test]
fn stored_clipboard_reads_back_as_created() {
    let m = test_handler();
    let doc = m
        .create_clipboard_document(
            CreateClipboard {
                clip_content: String::from("# héading\nbody"),
                clip_onetime: false,
                clip_type: ClipboardType::Markdown,
                is_lock: false,
                password: None,
                expire_date: 1_900_000_000,
            },
            1_700_000_000,
        )
        .unwrap();
    assert_eq!(doc.clip_type, Some(2));
    assert_eq!(doc.password.as_deref(), Some(""));
    let c = m.retrieve_clipboard_document(&doc).unwrap();
    assert_eq!(c.clip_content, "# héading\nbody");
    assert_eq!(c.clip_type, 2);
    assert!(!c.clip_onetime);
    assert!(!c.is_lock);
    assert_eq!(c.expire_date, 1_900_000_000);
    assert_eq!(c.date_time, 1_700_000_000);
    assert_eq!(c.id.chars().count(), CLIPBOARD_ID_LEN);
    assert_eq!(c.password, "");
}

#[test]
fn locked_clipboard_stores_a_bcrypt_hash_of_its_password() {
    let m = test_handler();
    let doc = m
        .create_clipboard_document(
            CreateClipboard {
                clip_content: String::from("secret"),
                clip_onetime: false,
                clip_type: ClipboardType::Normal,
                is_lock: true,
                password: Some(String::from("hunter2")),
                expire_date: 1,
            },
            0,
        )
        .unwrap();
    let stored = doc.password.clone().unwrap();
    assert_eq!(stored.len(), 60);
    assert_ne!(stored, "hunter2");
    assert!(bcrypt::verify("hunter2", &stored).unwrap());
    let c = m.retrieve_clipboard_document(&doc).unwrap();
    assert_eq!(c.password, stored);
}

#[test]
fn unlocked_clipboard_keeps_a_given_password_as_is() {
    let m = test_handler();
    let doc = m
        .create_clipboard_document(
            CreateClipboard {
                clip_content: String::from("x"),
                clip_onetime: false,
                clip_type: ClipboardType::Normal,
                is_lock: false,
                password: Some(String::from("plain")),
                expire_date: 1,
            },
            0,
        )
        .unwrap();
    assert_eq!(doc.password.as_deref(), Some("plain"));
}

#[test]
fn missing_fields_read_as_defaults() {
    let key = clipboard::derive_key("k");
    let mut doc = empty_document();
    doc.clip_type = Some(258);
    doc.clip_content = Some(vec![1, 2, 3]);
    let c = read_clipboard_document(&key, &doc).unwrap();
    assert_eq!(c.clip_type, 2);
    assert_eq!(c.id, "");
    assert_eq!(c.clip_content, "");
    assert_eq!(c.password, "");
    assert!(!c.is_lock);
    assert!(!c.clip_onetime);
    assert_eq!(c.date_time, 0);
    assert_eq!(c.expire_date, 0);
}

#[test]
fn undecryptable_content_is_an_error() {
    let key = clipboard::derive_key("k");
    let mut doc = empty_document();
    doc.clip_type = Some(1);
    doc.iv = Some(String::from("0123456789abcdef"));
    doc.clip_content = Some(vec![1, 2, 3]);
    assert!(read_clipboard_document(&key, &doc).is_err());
}

#[test]
fn clipboard_type_codes() {
    assert_eq!(ClipboardType::from_u8(0), None);
    assert_eq!(ClipboardType::from_u8(1), Some(ClipboardType::Normal));
    assert_eq!(ClipboardType::from_u8(2), Some(ClipboardType::Markdown));
    assert_eq!(ClipboardType::from_u8(3), None);
    assert_eq!(ClipboardType::from_u8(255), None);
    for t in [ClipboardType::Normal, ClipboardType::Markdown] {
        assert_eq!(ClipboardType::from_u8(t.code()), Some(t));
    }
}

fn clip(expire_date: i64, is_lock: bool, password: &str, onetime: bool) -> Clipboard {
    Clipboard {
        id: String::from("abcde"),
        clip_type: 1,
        clip_content: String::from("c"),
        clip_onetime: onetime,
        expire_date,
        date_time: 0,
        is_lock,
        password: String::from(password),
    }
}

#[test]
fn expiry_is_inclusive_and_final() {
    let c = clip(100, false, "", false);
    assert!(!c.is_expired_at(99));
    assert!(c.is_expired_at(100));
    assert!(c.is_expired_at(101));
    assert!(c.is_expired_at(1_000_000));
}

#[test]
fn is_expired_reads_the_clock() {
    assert_eq!(clip(0, false, "", false).is_expired(), Some(true));
    assert_eq!(clip(i64::MAX, false, "", false).is_expired(), Some(false));
}

#[test]
fn password_valid_checks_the_given_password_against_the_stored_hash() {
    let locked = clip(i64::MAX, true, &bcrypt::hash("password", 4).unwrap(), false);
    assert!(locked.password_valid("password"));
    assert!(!locked.password_valid("other"));
    let stored = "abc";
    let c = clip(i64::MAX, true, stored, false);
    assert!(!c.password_valid("abc"));
    assert!(!c.password_valid(&bcrypt::hash(stored, 4).unwrap()));
}

#[test]
fn hashed_password_opens_its_clipboard() {
    let h = hash_password("secret").unwrap();
    let locked = clip(i64::MAX, true, &h, true);
    assert!(locked.password_valid("secret"));
    assert_eq!(
        retrieve_action(&locked, "secret", 0),
        RetrieveAction::Serve { destroy: true }
    );
}

#[test]
fn bcrypt_helpers() {
    let h = hash_password("pw").unwrap();
    assert!(h.starts_with("$2b$04$"));
    assert_eq!(h.len(), 60);
    assert!(bcrypt_accepts("pw", &h));
    assert!(!bcrypt_accepts("other", &h));
    assert!(!bcrypt_accepts("pw", "not a hash"));
}

#[test]
fn clipboard_ids_are_five_id_characters() {
    let alphabet = id_alphabet();
    assert_eq!(alphabet.len(), 36);
    for _ in 0..20 {
        let id = new_clipboard_id();
        assert_eq!(id.chars().count(), 5);
        assert!(id.chars().all(|c| alphabet.contains(&c)));
    }
}

#[test]
fn model_handler_key_is_sha256_of_salt() {
    let m = test_handler();
    let expected = openssl::hash::hash(openssl::hash::MessageDigest::sha256(), b"test_salt")
        .unwrap();
    assert_eq!(m.key(), &expected[..]);
    assert_eq!(m.key().len(), 32);
}

#[test]
fn save_plan_with_tag_builds_paths() {
    match save_plan_with_tag("pub/", "http://h/", "/tmp/up", "abc", "f.txt", "XyZ") {
        StoragePlan::Move { dir, source, target, link, path } => {
            assert_eq!(path, "abc/XyZ_f.txt");
            assert_eq!(dir, "pub/abc");
            assert_eq!(source, "/tmp/up");
            assert_eq!(target, "pub/abc/XyZ_f.txt");
            assert_eq!(link, "http://h/abc/XyZ_f.txt");
        }
        StoragePlan::Skip => panic!("expected a move"),
    }
    assert!(matches!(save_plan_with_tag("pub/", "p", "", "abc", "f", "XyZ"), StoragePlan::Skip));
    assert!(matches!(save_plan_with_tag("pub/", "p", "/s", "abc", "", "XyZ"), StoragePlan::Skip));
}

#[test]
fn plan_save_to_minio_tags_the_file_name() {
    let m = ModelHandler::new(ModelHandlerOptions {
        key: String::from("k"),
        minio_public_path: String::from("s3/api/"),
        storage_access_prefix: String::from("http://localhost:8000/api/storage/"),
    });
    match m.plan_save_to_minio("/tmp/x", "task", "a.png") {
        StoragePlan::Move { dir, source, target, link, .. } => {
            assert_eq!(dir, "s3/api/task");
            assert_eq!(source, "/tmp/x");
            assert!(target.starts_with("s3/api/task/"));
            assert!(target.ends_with("_a.png"));
            assert_eq!(target.len(), "s3/api/task/".len() + 3 + "_a.png".len());
            assert_eq!(
                link,
                format!("http://localhost:8000/api/storage/{}", &target["s3/api/".len()..])
            );
        }
        StoragePlan::Skip => panic!("expected a move"),
    }
    assert!(matches!(m.plan_save_to_minio("", "task", "a.png"), StoragePlan::Skip));
    assert_eq!(m.minio_folder_to_remove(""), None);
    assert_eq!(m.minio_folder_to_remove("task"), Some(String::from("s3/api/task")));
}
