//! A pastebin-style clipboard service: requests are checked, clipboard
//! contents are encrypted with AES-256-CBC before they are stored, locked
//! clipboards carry a bcrypt hash, and uploaded files are planned into a
//! public storage folder.
//!
//! The crate holds the service's logic; storage, the HTTP server and the
//! file system are driven by the program around it.
mod api;
mod clipboard;
mod clock;
mod crypt;
mod files;
mod ids;
mod model;
mod password;
mod service;

pub use crate::api::{
    check_set_request, clipboard_lookup_id, default_clip_type, default_expire_date,
    expire_date_from_clock, expire_date_one_day_after, record_saved_file, retrieve_action, upload_fields, ApiError, HandlerState,
    RetrieveAction, RetrieveReq, SetClipboardReq, MIN_LIFETIME_SECS, ONE_DAY_SECS,
};
pub use crate::clipboard::{
    assemble_document, prepare_clipboard_document, read_clipboard_document, Clipboard,
    ClipboardDocument,
    ClipboardType, CreateClipboard, ModelError,
};
pub use crate::clock::now_unix_secs;
pub use crate::crypt::{
    derive_key, from_aes, to_aes, to_aes_with_iv, utf8_text, CryptError, IV_LEN,
};
pub use crate::files::{
    append_file_entry, field_text, finished_file_list, is_file_field, parse_file_list, prepend_link,
    split_text, temp_file_path, FileEntry, TEMP_NAME_LEN,
};
pub use crate::ids::{id_alphabet, new_clipboard_id, random_token, CLIPBOARD_ID_LEN};
pub use crate::model::{
    save_plan_with_tag, ClipboardModel, ModelHandler, ModelHandlerOptions, StorageModel,
    StoragePlan, FILE_TAG_LEN,
};
pub use crate::password::{bcrypt_accepts, hash_password, PASSWORD_COST};
pub use crate::service::{
    env_value_or, logger_settings, request_log_level, run_mode, LogLevel, LoggerSetting,
};
