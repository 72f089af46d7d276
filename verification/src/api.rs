//! The decisions of the HTTP handlers: which requests are refused and with
//! what answer, what a valid request asks the model for, and what serving a
//! stored clipboard comes to.
use crate::clipboard::{
    expired_at, lemma_read_of_prepared_document, prepared_from, read_from_document,
    type_from_code, Clipboard, ClipboardDocument, ClipboardType, CreateClipboard,
};
use crate::files::prepend_link;
use crate::model::ModelHandler;
use crate::password::bcrypt_verify_outcome;
use vstd::prelude::*;
use vstd::string::StringExecFns;
use vstd::utf8::is_ascii_chars;

verus! {

/// A request to create a clipboard.
pub struct SetClipboardReq {
    pub content: String,
    pub password: Option<String>,
    pub onetime: bool,
    pub cliptype: u8,
    pub expire_date: u64,
}

impl SetClipboardReq {
    /// A creation request from the fields that were sent: a missing
    /// one-time flag is false, a missing type is `default_clip_type`, a
    /// missing expiry date is `default_expire_date`. `None` only where the
    /// expiry date is missing and no default can be had from the clock; the
    /// request is `from_fields_at_clock` at the clock reading taken.
    pub fn from_fields(
        content: String,
        password: Option<String>,
        onetime: Option<bool>,
        cliptype: Option<u8>,
        expire_date: Option<u64>,
    ) -> (res: Option<Self>)
        ensures
            expire_date is Some ==> res is Some,
            res matches Some(r) ==> {
                &&& r.content@ == content@
                &&& opt_text(r.password) == opt_text(password)
                &&& r.onetime == (onetime == Some(true))
                &&& r.cliptype == match cliptype {
                    Some(t) => t,
                    None => 0,
                }
                &&& expire_date matches Some(d) ==> r.expire_date == d
                &&& expire_date is None ==> r.expire_date >= ONE_DAY_SECS
                &&& expire_date is None ==> exists|t: u64|
                    #![trigger clock_expire_date(Some(t))]
                    clock_expire_date(Some(t)) == Some(r.expire_date)
            },
    {
        let clock = if expire_date.is_none() {
            crate::clock::now_unix_secs()
        } else {
            None
        };
        Self::from_fields_at_clock(content, password, onetime, cliptype, expire_date, clock)
    }

    /// A creation request from the fields that were sent, with the clock
    /// reading `clock` (seconds since the epoch, `None` where the clock gave
    /// none): a missing one-time flag is false, a missing type is
    /// `default_clip_type`, a missing expiry date is
    /// `expire_date_from_clock(clock)`. `None` exactly where the expiry date
    /// is missing and that gives none.
    pub fn from_fields_at_clock(
        content: String,
        password: Option<String>,
        onetime: Option<bool>,
        cliptype: Option<u8>,
        expire_date: Option<u64>,
        clock: Option<u64>,
    ) -> (res: Option<Self>)
        ensures
            res is Some <==> (expire_date is Some || clock_expire_date(clock) is Some),
            expire_date is None && clock is Some && clock->Some_0 + ONE_DAY_SECS <= u64::MAX ==> (
            res matches Some(r) && r.expire_date == clock->Some_0 + ONE_DAY_SECS),
            res matches Some(r) ==> {
                &&& r.content@ == content@
                &&& opt_text(r.password) == opt_text(password)
                &&& r.onetime == (onetime == Some(true))
                &&& r.cliptype == match cliptype {
                    Some(t) => t,
                    None => 0,
                }
                &&& r.expire_date == match expire_date {
                    Some(d) => d,
                    None => clock_expire_date(clock)->Some_0,
                }
            },
    {
        let onetime = match onetime {
            Some(b) => b,
            None => false,
        };
        let cliptype = match cliptype {
            Some(t) => t,
            None => default_clip_type(),
        };
        let expire_date = match expire_date {
            Some(d) => d,
            None => match expire_date_from_clock(clock) {
                Some(d) => d,
                None => {
                    return None;
                },
            },
        };
        Some(SetClipboardReq { content, password, onetime, cliptype, expire_date })
    }
}

/// A request to read a clipboard: the password given for it (empty where
/// none is given).
pub struct RetrieveReq {
    pub password: String,
}

/// The clipboard type that a creation request without one gets.
pub fn default_clip_type() -> (res: u8)
    ensures
        res == 0,
{
    0
}

/// Seconds in a day: the default lifetime of a clipboard.
pub const ONE_DAY_SECS: u64 = 86400;

/// The expiry date one day after `now`.
pub fn expire_date_one_day_after(now: u64) -> (res: u64)
    requires
        now + ONE_DAY_SECS <= u64::MAX,
    ensures
        res == now + ONE_DAY_SECS,
{
    now + ONE_DAY_SECS
}

/// The expiry date one day after the clock reading `clock`: none where
/// there is no reading or a day later does not fit a `u64`.
pub open spec fn clock_expire_date(clock: Option<u64>) -> Option<u64> {
    match clock {
        Some(n) => if n + ONE_DAY_SECS <= u64::MAX {
            Some((n + ONE_DAY_SECS) as u64)
        } else {
            None
        },
        None => None,
    }
}

/// The expiry date one day after the clock reading `clock`, where there is
/// one and a day later fits a `u64`.
pub fn expire_date_from_clock(clock: Option<u64>) -> (res: Option<u64>)
    ensures
        res == clock_expire_date(clock),
{
    match clock {
        Some(now) => if now <= u64::MAX - ONE_DAY_SECS {
            Some(expire_date_one_day_after(now))
        } else {
            None
        },
        None => None,
    }
}

/// The expiry date that a creation request without one gets: one day from
/// the wall clock, as `expire_date_from_clock` makes it of the reading.
/// `None` where the clock reads before the Unix epoch or a day later does
/// not fit a `u64`.
pub fn default_expire_date() -> (res: Option<u64>)
    ensures
        res matches Some(d) ==> d >= ONE_DAY_SECS,
{
    expire_date_from_clock(crate::clock::now_unix_secs())
}

/// A refusal of the service: an HTTP status and a message.
#[derive(Debug, Clone, Copy, PartialEq, Eq, Structural)]
pub enum ApiError {
    ContentEmpty,
    ExpireTooSoon,
    WrongClipType,
    PasswordRequired,
    WrongPassword,
    NotFound,
    TaskIdRequired,
    FilesRequired,
    Internal,
}

/// The HTTP status of a refusal.
pub open spec fn error_status(e: ApiError) -> u16 {
    match e {
        ApiError::NotFound => 404,
        ApiError::Internal => 500,
        _ => 400,
    }
}

/// The message of a refusal.
pub open spec fn error_message(e: ApiError) -> Seq<char> {
    match e {
        ApiError::ContentEmpty => "content can not be empty"@,
        ApiError::ExpireTooSoon => "expiredate must greater than 10 minutes"@,
        ApiError::WrongClipType => "wrong cliptype"@,
        ApiError::PasswordRequired => "password is required for this clipboard."@,
        ApiError::WrongPassword => "wrong password."@,
        ApiError::NotFound => "no resource has been found."@,
        ApiError::TaskIdRequired => "[task_id] is required"@,
        ApiError::FilesRequired => "[[]file] is required"@,
        ApiError::Internal => ""@,
    }
}

impl ApiError {
    /// The HTTP status of this refusal: 404 for a missing clipboard, 500
    /// for an internal failure, 400 for a bad request.
    pub fn status(&self) -> (res: u16)
        ensures
            res == error_status(*self),
    {
        match self {
            ApiError::NotFound => 404,
            ApiError::Internal => 500,
            _ => 400,
        }
    }

    /// The message that this refusal answers with.
    pub fn message(&self) -> (res: String)
        ensures
            res@ == error_message(*self),
    {
        match self {
            ApiError::ContentEmpty => "content can not be empty".to_owned(),
            ApiError::ExpireTooSoon => "expiredate must greater than 10 minutes".to_owned(),
            ApiError::WrongClipType => "wrong cliptype".to_owned(),
            ApiError::PasswordRequired => "password is required for this clipboard.".to_owned(),
            ApiError::WrongPassword => "wrong password.".to_owned(),
            ApiError::NotFound => "no resource has been found.".to_owned(),
            ApiError::TaskIdRequired => "[task_id] is required".to_owned(),
            ApiError::FilesRequired => "[[]file] is required".to_owned(),
            ApiError::Internal => "".to_owned(),
        }
    }
}

/// The least lifetime, in seconds, of a new clipboard.
pub const MIN_LIFETIME_SECS: u64 = 600;

/// The text of an optional string.
pub open spec fn opt_text(o: Option<String>) -> Option<Seq<char>> {
    match o {
        Some(s) => Some(s@),
        None => None,
    }
}

/// The answer to a creation request at time `now`: refused for an empty
/// content, then for an expiry less than ten minutes after `now`, then for
/// a type code other than 1 and 2; otherwise the clipboard to create.
pub open spec fn set_request_refusal(req: SetClipboardReq, now: u64) -> Option<ApiError> {
    if req.content@.len() == 0 {
        Some(ApiError::ContentEmpty)
    } else if now + MIN_LIFETIME_SECS > req.expire_date {
        Some(ApiError::ExpireTooSoon)
    } else if type_from_code(req.cliptype) is None {
        Some(ApiError::WrongClipType)
    } else {
        None
    }
}

/// `c` is the clipboard that the accepted request `req` asks for: the
/// content, type and one-time flag as asked, locked exactly where a
/// password is given, with that password and the expiry date taken as an
/// `i64`.
pub open spec fn accepted_as(req: SetClipboardReq, c: CreateClipboard) -> bool {
    &&& c.clip_content@ == req.content@
    &&& Some(c.clip_type) == type_from_code(req.cliptype)
    &&& c.clip_onetime == req.onetime
    &&& c.is_lock == req.password is Some
    &&& opt_text(c.password) == opt_text(req.password)
    &&& c.expire_date == req.expire_date as i64
}

/// Checks a creation request at time `now` and, where it is accepted,
/// gives the clipboard to create: the content, type and one-time flag as
/// asked, locked exactly where a password is given, with that password and
/// the expiry date taken as an `i64`.
pub fn check_set_request(req: &SetClipboardReq, now: u64) -> (res: Result<CreateClipboard, ApiError>)
    requires
        now + MIN_LIFETIME_SECS <= u64::MAX,
    ensures
        match res {
            Err(e) => set_request_refusal(*req, now) == Some(e),
            Ok(c) => set_request_refusal(*req, now) is None && accepted_as(*req, c),
        },
        res == Err::<CreateClipboard, ApiError>(ApiError::ContentEmpty) <==> req.content@.len()
            == 0,
        res == Err::<CreateClipboard, ApiError>(ApiError::ExpireTooSoon) <==> (req.content@.len()
            > 0 && now + MIN_LIFETIME_SECS > req.expire_date),
        res is Ok ==> req.content@.len() > 0 && req.expire_date >= now + MIN_LIFETIME_SECS && (
        req.cliptype == 1 || req.cliptype == 2),
        res matches Ok(c) ==> {
            &&& c.clip_content@ == req.content@
            &&& (c.clip_type == ClipboardType::Normal <==> req.cliptype == 1)
            &&& (c.clip_type == ClipboardType::Markdown <==> req.cliptype == 2)
            &&& c.clip_onetime == req.onetime
            &&& c.is_lock == req.password is Some
            &&& c.expire_date == req.expire_date as i64
        },
{
    if req.content.as_str().is_empty() {
        return Err(ApiError::ContentEmpty);
    }
    if now + MIN_LIFETIME_SECS > req.expire_date {
        return Err(ApiError::ExpireTooSoon);
    }
    let clip_type = match ClipboardType::from_u8(req.cliptype) {
        Some(t) => t,
        None => {
            return Err(ApiError::WrongClipType);
        },
    };
    let password = match &req.password {
        Some(p) => Some(p.clone()),
        None => None,
    };
    Ok(
        CreateClipboard {
            clip_content: req.content.clone(),
            clip_type,
            clip_onetime: req.onetime,
            is_lock: req.password.is_some(),
            password,
            expire_date: req.expire_date as i64,
        },
    )
}

/// What serving a stored clipboard comes to.
#[derive(Debug, Clone, Copy, PartialEq, Eq, Structural)]
pub enum RetrieveAction {
    /// The clipboard has expired: destroy it and answer "not found".
    Expired,
    /// Refuse with this answer; the clipboard stays.
    Reject(ApiError),
    /// Answer with the clipboard; destroy it afterwards where asked.
    Serve { destroy: bool },
}

/// What serving the clipboard `c` at time `now` with the given password
/// comes to: an expired clipboard is destroyed unseen; a locked one needs a
/// password, and one that `password_valid` accepts; what is served is
/// destroyed where it is one-time.
pub open spec fn retrieve_decision(c: Clipboard, password: Seq<char>, now: u64) -> RetrieveAction {
    if expired_at(c.expire_date, now) {
        RetrieveAction::Expired
    } else if c.is_lock && password.len() == 0 {
        RetrieveAction::Reject(ApiError::PasswordRequired)
    } else if c.is_lock && bcrypt_verify_outcome(password, c.password@) != Some(true) {
        RetrieveAction::Reject(ApiError::WrongPassword)
    } else {
        RetrieveAction::Serve { destroy: c.clip_onetime }
    }
}

/// Decides how to serve the clipboard `c` at time `now` to a request that
/// gives `password`.
pub fn retrieve_action(c: &Clipboard, password: &str, now: u64) -> (res: RetrieveAction)
    ensures
        res == retrieve_decision(*c, password@, now),
        res == RetrieveAction::Expired <==> c.expire_date <= now as i64,
        res == RetrieveAction::Reject(ApiError::PasswordRequired) <==> (c.expire_date > now as i64
            && c.is_lock && password@.len() == 0),
        res == RetrieveAction::Reject(ApiError::WrongPassword) <==> (c.expire_date > now as i64
            && c.is_lock && password@.len() > 0 && bcrypt_verify_outcome(password@, c.password@)
            != Some(true)),
        res is Serve <==> (c.expire_date > now as i64 && (!c.is_lock || (password@.len() > 0
            && bcrypt_verify_outcome(password@, c.password@) == Some(true)))),
        res matches RetrieveAction::Serve { destroy } ==> destroy == c.clip_onetime,
{
    if c.is_expired_at(now) {
        return RetrieveAction::Expired;
    }
    if c.is_lock {
        if password.is_empty() {
            return RetrieveAction::Reject(ApiError::PasswordRequired);
        }
        if !c.password_valid(password) {
            return RetrieveAction::Reject(ApiError::WrongPassword);
        }
    }
    RetrieveAction::Serve { destroy: c.clip_onetime }
}

/// Law (what is served): an expired clipboard is never served; a locked
/// clipboard is served only to a non-empty password that bcrypt accepts
/// as matching its stored hash; and a one-time clipboard is destroyed
/// whenever it is served.
pub proof fn lemma_serving_rules(c: Clipboard, password: Seq<char>, now: u64)
    ensures
        retrieve_decision(c, password, now) matches RetrieveAction::Serve { destroy } ==> {
            &&& !expired_at(c.expire_date, now)
            &&& c.is_lock ==> password.len() > 0 && bcrypt_verify_outcome(password, c.password@)
                == Some(true)
            &&& destroy == c.clip_onetime
        },
        expired_at(c.expire_date, now) ==> retrieve_decision(c, password, now)
            == RetrieveAction::Expired,
{
}

/// Law (every answer to a read): an expired clipboard, and only an
/// expired one, is destroyed unseen; a live locked clipboard asked without
/// a password is refused as needing one and stays; a live locked clipboard
/// asked with a password that does not match its hash is refused as wrong
/// and stays; every other request is served, and what is served is
/// destroyed exactly where the clipboard is one-time.
pub proof fn lemma_every_answer_to_a_read(c: Clipboard, password: Seq<char>, now: u64)
    ensures
        retrieve_decision(c, password, now) == RetrieveAction::Expired <==> c.expire_date
            <= now as i64,
        retrieve_decision(c, password, now) == RetrieveAction::Reject(ApiError::PasswordRequired)
            <==> (c.expire_date > now as i64 && c.is_lock && password.len() == 0),
        retrieve_decision(c, password, now) == RetrieveAction::Reject(ApiError::WrongPassword)
            <==> (c.expire_date > now as i64 && c.is_lock && password.len() > 0
            && bcrypt_verify_outcome(password, c.password@) != Some(true)),
        retrieve_decision(c, password, now) is Serve <==> (c.expire_date > now as i64 && (
        !c.is_lock || (password.len() > 0 && bcrypt_verify_outcome(password, c.password@) == Some(
            true,
        )))),
        retrieve_decision(c, password, now) matches RetrieveAction::Serve { destroy } ==> destroy
            == c.clip_onetime,
{
}

/// Law (every answer to a creation request): a request is refused as
/// empty exactly where its content is empty; as expiring too soon exactly
/// where its content is not empty and its expiry date is less than ten
/// minutes after `now` (a date in the past included); as of a wrong type
/// exactly where neither holds and its type is neither 1 nor 2; and it is
/// accepted exactly where none of these holds.
pub proof fn lemma_every_answer_to_a_creation(req: SetClipboardReq, now: u64)
    ensures
        set_request_refusal(req, now) == Some(ApiError::ContentEmpty) <==> req.content@.len()
            == 0,
        set_request_refusal(req, now) == Some(ApiError::ExpireTooSoon) <==> (req.content@.len()
            > 0 && req.expire_date < now + 600),
        set_request_refusal(req, now) == Some(ApiError::WrongClipType) <==> (req.content@.len()
            > 0 && req.expire_date >= now + 600 && req.cliptype != 1 && req.cliptype != 2),
        set_request_refusal(req, now) is None <==> (req.content@.len() > 0 && req.expire_date
            >= now + 600 && (req.cliptype == 1 || req.cliptype == 2)),
{
}

/// Law (what an accepted request creates): the clipboard keeps the
/// request's content, one-time flag and expiry date, has type `Normal` for
/// code 1 and `Markdown` for code 2, and is locked, with the given
/// password, exactly where a password was given.
pub proof fn lemma_accepted_request_creates(req: SetClipboardReq, c: CreateClipboard)
    requires
        accepted_as(req, c),
    ensures
        c.clip_content@ == req.content@,
        c.clip_type == ClipboardType::Normal <==> req.cliptype == 1,
        c.clip_type == ClipboardType::Markdown <==> req.cliptype == 2,
        c.clip_onetime == req.onetime,
        c.is_lock == req.password is Some,
        req.password matches Some(p) ==> c.password matches Some(q) && q@ == p@,
        c.expire_date == req.expire_date as i64,
{
}

/// Law (a password opens the hash made of it): a locked clipboard whose
/// stored password field is a hash that bcrypt verifies `password` against,
/// as every hash that `hash_password` makes of `password` is, is served to
/// that password, when it is not empty, until the clipboard expires.
pub proof fn lemma_hashed_password_opens(c: Clipboard, password: Seq<char>, now: u64)
    requires
        c.is_lock,
        password.len() > 0,
        bcrypt_verify_outcome(password, c.password@) == Some(true),
        !expired_at(c.expire_date, now),
    ensures
        retrieve_decision(c, password, now) == (RetrieveAction::Serve { destroy: c.clip_onetime }),
{
}

/// Law (a default expiry date is a day after its reading): where a
/// reading is given and a day later fits a `u64`, the expiry date is that
/// reading plus one day; otherwise there is none.
pub proof fn lemma_clock_expire_date(clock: Option<u64>)
    ensures
        clock is Some && clock->Some_0 + 86400 <= u64::MAX ==> clock_expire_date(clock) == Some(
            (clock->Some_0 + 86400) as u64,
        ),
        clock is Some && clock->Some_0 + 86400 > u64::MAX ==> clock_expire_date(clock) is None,
        clock is None ==> clock_expire_date(clock) is None,
{
}

/// Law (expiry is final): a clipboard expired at some time stays expired at
/// every later time that fits an `i64`.
pub proof fn lemma_expiry_is_final(expire_date: i64, earlier: u64, later: u64)
    requires
        earlier <= later <= i64::MAX,
        expired_at(expire_date, earlier),
    ensures
        expired_at(expire_date, later),
{
}

/// What `str::to_lowercase` makes of a text (Unicode lower case).
pub uninterp spec fn lowercase_text(s: Seq<char>) -> Seq<char>;

/// The lower case of an ASCII character: `A`..=`Z` become `a`..=`z`, every
/// other character stays.
pub open spec fn ascii_lower_char(c: char) -> char {
    if 'A' <= c <= 'Z' {
        ((c as u32) + 32) as char
    } else {
        c
    }
}

/// The lower case of an ASCII text, character by character.
pub open spec fn ascii_lowercase(s: Seq<char>) -> Seq<char> {
    s.map_values(|c: char| ascii_lower_char(c))
}

/// Calls `str::to_lowercase`. Claims: the result is the named lower case
/// of `s`, and for an ASCII text it is the ASCII lower case (Unicode maps
/// `A`..=`Z` to `a`..=`z` and leaves every other ASCII character alone).
#[verifier::external_body]
fn to_lowercase(s: &str) -> (res: String)
    ensures
        res@ == lowercase_text(s@),
        is_ascii_chars(s@) ==> res@ == ascii_lowercase(s@),
{
    s.to_lowercase()
}

/// The id under which a clipboard requested as `raw` is looked up: `raw`
/// in lower case; for an ASCII id, its ASCII lower case.
pub fn clipboard_lookup_id(raw: &str) -> (res: String)
    ensures
        res@ == lowercase_text(raw@),
        is_ascii_chars(raw@) ==> res@ == ascii_lowercase(raw@),
{
    to_lowercase(raw)
}

/// Checks the fields of an upload form: the task id is required first, then
/// the file list. Gives both where present.
pub fn upload_fields(task_id: Option<String>, files: Option<String>) -> (res: Result<
    (String, String),
    ApiError,
>)
    ensures
        task_id is None ==> res == Err::<(String, String), ApiError>(ApiError::TaskIdRequired),
        task_id is Some && files is None ==> res == Err::<(String, String), ApiError>(
            ApiError::FilesRequired,
        ),
        res matches Ok((t, f)) ==> Some(t@) == opt_text(task_id) && Some(f@) == opt_text(files),
        task_id is Some && files is Some ==> res is Ok,
{
    match task_id {
        None => Err(ApiError::TaskIdRequired),
        Some(t) => match files {
            None => Err(ApiError::FilesRequired),
            Some(f) => Ok((t, f)),
        },
    }
}

/// The state the handlers share: the model, the folder for temporary
/// upload files, and the URL prefix of the object storage.
pub struct HandlerState {
    pub model: ModelHandler,
    pub temp_path: String,
    pub minio_storage_prefix: String,
}

impl HandlerState {
    /// The storage URL of the file `file` of clipboard `id`:
    /// `{prefix}clipboard/{id}/{file}`.
    pub fn minio_clipboard_url(&self, id: &str, file: &str) -> (res: String)
        ensures
            res@ == self.minio_storage_prefix@ + "clipboard/"@ + id@ + "/"@ + file@,
    {
        let mut url = self.minio_storage_prefix.clone();
        url.append("clipboard/");
        url.append(id);
        url.append("/");
        url.append(file);
        url
    }
}

/// Records the outcome of storing one uploaded file: a link that came back
/// goes in front of the links gathered so far; a failed store answers
/// `Internal`, which ends the upload, and leaves the links as they were.
pub fn record_saved_file(links: &mut Vec<(String, String)>, name: String, saved: Option<String>) -> (res: Result<(), ApiError>)
    ensures
        match saved {
            Some(link) => res is Ok && final(links)@ == seq![(name, link)] + old(links)@,
            None => res == Err::<(), ApiError>(ApiError::Internal) && final(links)@ == old(links)@,
        },
{
    match saved {
        Some(link) => {
            prepend_link(links, name, link);
            Ok(())
        },
        None => Err(ApiError::Internal),
    }
}

/// Law (an open clipboard is served as it was asked for): a clipboard
/// created from an accepted request without a password, stored, and read
/// back at a time before its expiry date, is served to any password with
/// the requested content and type, and destroyed exactly where the request
/// asked for a one-time clipboard.
pub proof fn lemma_open_clipboard_served_as_requested(
    req: SetClipboardReq,
    c: CreateClipboard,
    key: Seq<u8>,
    created: u64,
    doc: ClipboardDocument,
    read: Clipboard,
    later: u64,
    password: Seq<char>,
)
    requires
        accepted_as(req, c),
        req.password is None,
        prepared_from(key, c, created, doc),
        read_from_document(key, doc, read),
        !expired_at(req.expire_date as i64, later),
    ensures
        retrieve_decision(read, password, later) == (RetrieveAction::Serve {
            destroy: req.onetime,
        }),
        read.clip_content@ == req.content@,
        read.clip_type == req.cliptype,
{
    lemma_read_of_prepared_document(key, c, created, doc, read);
    crate::clipboard::lemma_type_code_round_trip(c.clip_type, req.cliptype);
}

/// Law (a locked clipboard opens with its own password): a clipboard
/// created from an accepted request with a non-empty password, stored, and
/// read back at a time before its expiry date, is served to that password,
/// and destroyed exactly where the request asked for a one-time clipboard.
pub proof fn lemma_locked_clipboard_opens_with_its_password(
    req: SetClipboardReq,
    c: CreateClipboard,
    key: Seq<u8>,
    created: u64,
    doc: ClipboardDocument,
    read: Clipboard,
    later: u64,
)
    requires
        accepted_as(req, c),
        req.password matches Some(p) && p@.len() > 0,
        prepared_from(key, c, created, doc),
        read_from_document(key, doc, read),
        !expired_at(req.expire_date as i64, later),
    ensures
        retrieve_decision(read, req.password->Some_0@, later) == (RetrieveAction::Serve {
            destroy: req.onetime,
        }),
{
    lemma_read_of_prepared_document(key, c, created, doc, read);
}

} // verus!
