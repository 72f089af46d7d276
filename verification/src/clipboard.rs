//! Clipboards: their kinds, what a creation request holds, the document in
//! which a clipboard is stored (content encrypted, password hashed), and how
//! a stored document reads back.
use crate::crypt::{
    aes_256_cbc_decrypt, aes_256_cbc_encrypt, aes_plaintext, aes_text_outcome,
    cipher_input_ok,
    from_aes, lemma_text_round_trip, padded_len, to_aes, CryptError, IV_LEN,
};
use crate::ids::{drawn_from, id_alphabet_spec, new_clipboard_id, CLIPBOARD_ID_LEN};
use crate::password::{
    bcrypt_accepts, bcrypt_hash_shaped, bcrypt_verify_outcome, hash_password,
    password_hash_prefix,
};
use vstd::prelude::*;
use vstd::utf8::*;

verus! {

/// How a clipboard's content is shown.
#[derive(Debug, Clone, Copy, PartialEq, Eq, Structural)]
pub enum ClipboardType {
    /// Plain text; code 1.
    Normal,
    /// Markdown; code 2.
    Markdown,
}

/// The number that stands for a clipboard type in requests and documents.
pub open spec fn type_code(t: ClipboardType) -> u8 {
    match t {
        ClipboardType::Normal => 1,
        ClipboardType::Markdown => 2,
    }
}

/// The clipboard type that a number stands for, if any.
pub open spec fn type_from_code(value: u8) -> Option<ClipboardType> {
    if value == 1 {
        Some(ClipboardType::Normal)
    } else if value == 2 {
        Some(ClipboardType::Markdown)
    } else {
        None
    }
}

impl ClipboardType {
    /// The clipboard type that `value` stands for: 1 is `Normal`, 2 is
    /// `Markdown`, every other number none.
    pub fn from_u8(value: u8) -> (res: Option<Self>)
        ensures
            res == type_from_code(value),
    {
        match value {
            1 => Some(ClipboardType::Normal),
            2 => Some(ClipboardType::Markdown),
            _ => None,
        }
    }

    /// The number that stands for this type.
    pub fn code(&self) -> (res: u8)
        ensures
            res == type_code(*self),
    {
        match self {
            ClipboardType::Normal => 1,
            ClipboardType::Markdown => 2,
        }
    }
}

/// Law: the codes of clipboard types are exactly 1 and 2, and `from_u8`
/// inverts `code`.
pub proof fn lemma_type_code_round_trip(t: ClipboardType, value: u8)
    ensures
        type_from_code(type_code(t)) == Some(t),
        type_from_code(value) is Some <==> (value == 1 || value == 2),
        type_from_code(value) matches Some(u) ==> type_code(u) == value,
{
}

/// What a request to create a clipboard carries.
pub struct CreateClipboard {
    pub clip_content: String,
    pub clip_type: ClipboardType,
    pub clip_onetime: bool,
    pub is_lock: bool,
    pub password: Option<String>,
    pub expire_date: i64,
}

/// A clipboard as it is read back from storage, content decrypted.
#[derive(Debug)]
pub struct Clipboard {
    pub id: String,
    pub clip_type: u8,
    pub clip_content: String,
    pub clip_onetime: bool,
    pub expire_date: i64,
    pub date_time: i64,
    pub is_lock: bool,
    pub password: String,
}

/// Whether a clipboard that expires at `expire_date` has expired at `now`
/// (seconds since the epoch, taken as an `i64` as the stored dates are).
pub open spec fn expired_at(expire_date: i64, now: u64) -> bool {
    expire_date <= now as i64
}

impl Clipboard {
    /// Whether the clipboard has expired at `now`: its expiry date is not
    /// after `now`.
    pub fn is_expired_at(&self, now: u64) -> (res: bool)
        ensures
            res == expired_at(self.expire_date, now),
            res == (self.expire_date <= now as i64),
    {
        self.expire_date <= now as i64
    }

    /// Whether the clipboard has expired by the wall clock; `None` where the
    /// clock reads before the Unix epoch. The answer is
    /// `is_expired_by_clock` at the reading the clock gave.
    pub fn is_expired(&self) -> (res: Option<bool>)
        ensures
            res matches Some(b) ==> exists|now: u64| b == expired_at(self.expire_date, now),
    {
        let clock = crate::clock::now_unix_secs();
        let res = self.is_expired_by_clock(clock);
        assert(res matches Some(b) ==> b == expired_at(self.expire_date, clock->Some_0));
        res
    }

    /// Whether the clipboard has expired at the clock reading `clock`
    /// (seconds since the epoch); `None` where the clock gave no reading.
    pub fn is_expired_by_clock(&self, clock: Option<u64>) -> (res: Option<bool>)
        ensures
            res is Some <==> clock is Some,
            clock matches Some(now) ==> res == Some(self.expire_date <= now as i64),
    {
        match clock {
            Some(now) => Some(self.is_expired_at(now)),
            None => None,
        }
    }

    /// Checks a password given for this clipboard: bcrypt verifies
    /// `password` against the stored hash, and a bcrypt error (a stored
    /// field that is not a bcrypt hash) counts as a refusal.
    pub fn password_valid(&self, password: &str) -> (res: bool)
        ensures
            res == (bcrypt_verify_outcome(password@, self.password@) == Some(true)),
            !bcrypt_hash_shaped(self.password@) ==> !res,
    {
        bcrypt_accepts(password, self.password.as_str())
    }
}

/// A clipboard as it is stored: each field is present or missing, as in a
/// document of the database. The content is AES-256-CBC ciphertext under
/// the IV string `iv`.
pub struct ClipboardDocument {
    pub id: Option<String>,
    pub iv: Option<String>,
    pub clip_content: Option<Vec<u8>>,
    pub clip_onetime: Option<bool>,
    pub is_lock: Option<bool>,
    pub expire_date: Option<i64>,
    pub password: Option<String>,
    pub date_time: Option<i64>,
    pub clip_type: Option<i32>,
}

/// Why creating or reading a clipboard failed.
#[derive(Debug, Clone, Copy, PartialEq, Eq, Structural)]
pub enum ModelError {
    /// bcrypt could not hash the password.
    PasswordHash,
    /// Encrypting or decrypting the content failed.
    Crypt(CryptError),
}

/// The text of an optional string field, empty where it is missing.
pub open spec fn text_or_empty(o: Option<String>) -> Seq<char> {
    match o {
        Some(s) => s@,
        None => Seq::empty(),
    }
}

/// An optional flag, `false` where it is missing.
pub open spec fn flag_or_false(o: Option<bool>) -> bool {
    match o {
        Some(b) => b,
        None => false,
    }
}

/// An optional number, 0 where it is missing.
pub open spec fn number_or_zero(o: Option<i64>) -> i64 {
    match o {
        Some(n) => n,
        None => 0,
    }
}

/// The content text that a document stores: the decryption of the content
/// under the key and the IV string's bytes where both are present, empty
/// where either is missing, `None` where decryption fails or gives no UTF-8.
pub open spec fn stored_text(key: Seq<u8>, doc: ClipboardDocument) -> Option<Seq<char>> {
    match (doc.clip_content, doc.iv) {
        (Some(data), Some(iv)) => aes_plaintext(key, encode_utf8(iv@), data@),
        _ => Some(Seq::empty()),
    }
}

/// Reading `doc` under `key` can be attempted: the type is present (its
/// absence panics), and where content and IV are both present, decryption
/// gets inputs OpenSSL accepts without asserting.
pub open spec fn decodable(key: Seq<u8>, doc: ClipboardDocument) -> bool {
    &&& doc.clip_type is Some
    &&& match (doc.clip_content, doc.iv) {
        (Some(data), Some(iv)) => cipher_input_ok(key, encode_utf8(iv@), data@),
        _ => true,
    }
}

/// The error that reading `doc` under `key` meets, if any: where content
/// and IV are both present, the failure of decrypting the content or of
/// reading the plaintext as UTF-8.
pub open spec fn stored_read_error(key: Seq<u8>, doc: ClipboardDocument) -> Option<ModelError> {
    match (doc.clip_content, doc.iv) {
        (Some(data), Some(iv)) => match aes_text_outcome(key, encode_utf8(iv@), data@) {
            Ok(_) => None,
            Err(e) => Some(ModelError::Crypt(e)),
        },
        _ => None,
    }
}

/// `c` is what reading `doc` under `key` gives: missing strings read as
/// empty, missing flags as false, missing numbers as 0, the type code is
/// the stored number cut to a byte, and the content is the stored text.
pub open spec fn read_from_document(key: Seq<u8>, doc: ClipboardDocument, c: Clipboard) -> bool {
    &&& c.id@ == text_or_empty(doc.id)
    &&& c.clip_type == doc.clip_type->Some_0 as u8
    &&& c.is_lock == flag_or_false(doc.is_lock)
    &&& c.date_time == number_or_zero(doc.date_time)
    &&& c.expire_date == number_or_zero(doc.expire_date)
    &&& c.clip_onetime == flag_or_false(doc.clip_onetime)
    &&& c.password@ == text_or_empty(doc.password)
    &&& stored_text(key, doc) == Some(c.clip_content@)
}

/// Reads a stored document back into a clipboard, decrypting its content
/// under `key`. It fails exactly where the stored text cannot be had, with
/// the error that decrypting it meets.
pub fn read_clipboard_document(key: &[u8], doc: &ClipboardDocument) -> (res: Result<
    Clipboard,
    ModelError,
>)
    requires
        decodable(key@, *doc),
    ensures
        res is Ok <==> stored_text(key@, *doc) is Some,
        res matches Ok(c) ==> read_from_document(key@, *doc, c),
        res matches Err(e) ==> stored_read_error(key@, *doc) == Some(e),
        res matches Ok(c) ==> {
            &&& (doc.id matches Some(i) ==> c.id@ == i@)
            &&& (doc.id is None ==> c.id@.len() == 0)
            &&& (doc.password matches Some(p) ==> c.password@ == p@)
            &&& (doc.password is None ==> c.password@.len() == 0)
            &&& c.clip_type == doc.clip_type->Some_0 as u8
            &&& c.is_lock == (doc.is_lock == Some(true))
            &&& c.clip_onetime == (doc.clip_onetime == Some(true))
            &&& (doc.date_time matches Some(n) ==> c.date_time == n)
            &&& (doc.date_time is None ==> c.date_time == 0)
            &&& (doc.expire_date matches Some(n) ==> c.expire_date == n)
            &&& (doc.expire_date is None ==> c.expire_date == 0)
        },
{
    let clip_type: u8 = match doc.clip_type {
        Some(t) => t as u8,
        None => 0,
    };
    let id = match &doc.id {
        Some(s) => s.clone(),
        None => String::new(),
    };
    let is_lock = match doc.is_lock {
        Some(b) => b,
        None => false,
    };
    let date_time = match doc.date_time {
        Some(n) => n,
        None => 0,
    };
    let expire_date = match doc.expire_date {
        Some(n) => n,
        None => 0,
    };
    let clip_onetime = match doc.clip_onetime {
        Some(b) => b,
        None => false,
    };
    let password = match &doc.password {
        Some(s) => s.clone(),
        None => String::new(),
    };
    let clip_content = match &doc.clip_content {
        Some(data) => match &doc.iv {
            Some(iv) => match from_aes(key, iv.as_str().as_bytes(), data.as_slice()) {
                Ok(text) => text,
                Err(e) => {
                    return Err(ModelError::Crypt(e));
                },
            },
            None => String::new(),
        },
        None => String::new(),
    };
    Ok(
        Clipboard {
            id,
            clip_type,
            clip_content,
            clip_onetime,
            expire_date,
            date_time,
            is_lock,
            password,
        },
    )
}

/// Inputs for which storing a clipboard can be attempted: a locked
/// clipboard has a password (its absence panics), and the content's UTF-8
/// length fits OpenSSL's `c_int`.
pub open spec fn creatable(c: CreateClipboard) -> bool {
    &&& c.is_lock ==> c.password is Some
    &&& encode_utf8(c.clip_content@).len() <= i32::MAX
}

/// `doc` stores the request `c` under `key`, created at `now`: a fresh id
/// of five id characters, a 16-character ASCII IV, as content the
/// AES-256-CBC encryption of the request's text under `key` and that IV
/// (which decrypts back to the text), the flags, dates and type code as
/// given, and as password the bcrypt hash (version 2b, cost 4) of the
/// request's password for a locked clipboard, the request's password as
/// given (or empty) otherwise.
pub open spec fn prepared_from(key: Seq<u8>, c: CreateClipboard, now: u64, doc: ClipboardDocument) -> bool {
    &&& doc.id matches Some(id) && id@.len() == CLIPBOARD_ID_LEN && drawn_from(
        id@,
        id_alphabet_spec(),
    )
    &&& doc.iv matches Some(iv) && iv@.len() == IV_LEN && is_ascii_chars(iv@)
    &&& doc.clip_content matches Some(data) && {
        &&& data@ == aes_256_cbc_encrypt(key, encode_utf8(doc.iv->Some_0@), encode_utf8(c.clip_content@))
        &&& data@.len() == padded_len(encode_utf8(c.clip_content@).len())
        &&& aes_256_cbc_decrypt(key, encode_utf8(doc.iv->Some_0@), data@) == Some(
            encode_utf8(c.clip_content@),
        )
    }
    &&& stored_text(key, doc) == Some(c.clip_content@)
    &&& doc.clip_onetime == Some(c.clip_onetime)
    &&& doc.is_lock == Some(c.is_lock)
    &&& doc.expire_date == Some(c.expire_date)
    &&& doc.date_time == Some(now as i64)
    &&& doc.clip_type == Some(type_code(c.clip_type) as i32)
    &&& doc.password matches Some(p) && if c.is_lock {
        &&& bcrypt_hash_shaped(p@)
        &&& p@.take(7) == password_hash_prefix()
        &&& bcrypt_verify_outcome(c.password->Some_0@, p@) == Some(true)
    } else {
        p@ == text_or_empty(c.password)
    }
}

/// Builds the document that stores the request `c`, created at `now`: draws
/// an id, hashes the password of a locked clipboard, and encrypts the
/// content under `key` with a fresh IV. An unlocked request under a 32-byte
/// key always succeeds; a locked one fails only where bcrypt cannot hash
/// the password (it could not draw a salt).
pub fn prepare_clipboard_document(key: &[u8], c: CreateClipboard, now: u64) -> (res: Result<
    ClipboardDocument,
    ModelError,
>)
    requires
        32 <= key@.len() <= i32::MAX,
        creatable(c),
    ensures
        key@.len() == 32 && !c.is_lock ==> res is Ok,
        match res {
            Ok(doc) => prepared_from(key@, c, now, doc),
            Err(e) => e == ModelError::PasswordHash && c.is_lock || e == ModelError::Crypt(
                CryptError::Encrypt,
            ) && key@.len() != 32,
        },
{
    let cid = new_clipboard_id();
    let password: String = if c.is_lock {
        let given = match &c.password {
            Some(p) => p.as_str(),
            None => "",
        };
        match hash_password(given) {
            Some(h) => h,
            None => {
                return Err(ModelError::PasswordHash);
            },
        }
    } else {
        match &c.password {
            Some(p) => p.clone(),
            None => String::new(),
        }
    };
    let encrypted = to_aes(key, c.clip_content.as_str().as_bytes());
    let (iv, data) = match encrypted {
        Ok(pair) => pair,
        Err(e) => {
            return Err(ModelError::Crypt(e));
        },
    };
    proof {
        lemma_text_round_trip(key@, encode_utf8(iv@), c.clip_content@, data@);
    }
    Ok(assemble_document(&c, cid, password, iv, data, now))
}

/// The document of the request `c` once its id, stored password field, IV
/// and ciphertext are drawn or computed: those as given, the flags, expiry
/// date and type code of the request, and `now` as the creation time.
pub fn assemble_document(
    c: &CreateClipboard,
    id: String,
    password: String,
    iv: String,
    ciphertext: Vec<u8>,
    now: u64,
) -> (doc: ClipboardDocument)
    ensures
        doc.id == Some(id),
        doc.password == Some(password),
        doc.iv == Some(iv),
        doc.clip_content == Some(ciphertext),
        doc.clip_onetime == Some(c.clip_onetime),
        doc.is_lock == Some(c.is_lock),
        doc.expire_date == Some(c.expire_date),
        doc.date_time == Some(now as i64),
        doc.clip_type == Some(type_code(c.clip_type) as i32),
{
    let clip_type: i32 = c.clip_type.code() as i32;
    ClipboardDocument {
        id: Some(id),
        iv: Some(iv),
        clip_content: Some(ciphertext),
        clip_onetime: Some(c.clip_onetime),
        is_lock: Some(c.is_lock),
        expire_date: Some(c.expire_date),
        password: Some(password),
        date_time: Some(now as i64),
        clip_type: Some(clip_type),
    }
}

/// `read` gives back the request `c` stored at `now`: its content, type,
/// one-time flag, lock flag and expiry date, the creation time, an id of
/// five id characters, and for a locked clipboard a password field that
/// bcrypt verifies the request's password against.
pub open spec fn reads_back_as(c: CreateClipboard, now: u64, read: Clipboard) -> bool {
    &&& read.clip_content@ == c.clip_content@
    &&& read.clip_type == type_code(c.clip_type)
    &&& read.clip_onetime == c.clip_onetime
    &&& read.is_lock == c.is_lock
    &&& read.expire_date == c.expire_date
    &&& read.date_time == now as i64
    &&& read.id@.len() == CLIPBOARD_ID_LEN
    &&& drawn_from(read.id@, id_alphabet_spec())
    &&& c.is_lock ==> bcrypt_verify_outcome(c.password->Some_0@, read.password@) == Some(true)
}

/// Law (a stored clipboard reads back as it was created): a document
/// prepared from a request under a 32-byte key is a valid input of
/// `read_clipboard_document` under the same key (where its ciphertext fits
/// OpenSSL's `c_int`), its stored text is the request's content, so that
/// reading it succeeds, and every clipboard read from it gives back the
/// request.
pub proof fn lemma_stored_clipboard_reads_back(
    key: Seq<u8>,
    c: CreateClipboard,
    now: u64,
    doc: ClipboardDocument,
)
    requires
        key.len() == 32,
        prepared_from(key, c, now, doc),
        doc.clip_content->Some_0@.len() <= i32::MAX,
    ensures
        decodable(key, doc),
        stored_text(key, doc) == Some(c.clip_content@),
        stored_read_error(key, doc) is None,
        forall|read: Clipboard| #[trigger]
            read_from_document(key, doc, read) ==> reads_back_as(c, now, read),
{
    let iv = doc.iv->Some_0;
    is_ascii_chars_encode_utf8(iv@);
    assert forall|read: Clipboard| #[trigger]
        read_from_document(key, doc, read) implies reads_back_as(c, now, read) by {
        lemma_read_of_prepared_document(key, c, now, doc, read);
    }
}

/// A clipboard read from a document prepared from the request `c` at `now`
/// gives back that request.
pub proof fn lemma_read_of_prepared_document(
    key: Seq<u8>,
    c: CreateClipboard,
    now: u64,
    doc: ClipboardDocument,
    read: Clipboard,
)
    requires
        prepared_from(key, c, now, doc),
        read_from_document(key, doc, read),
    ensures
        reads_back_as(c, now, read),
        read.id@ == doc.id->Some_0@,
{
    assert((type_code(c.clip_type) as i32) as u8 == type_code(c.clip_type));
}

/// Law (a read keeps what the document stores): a clipboard read from a
/// document carries the document's id, password, dates and flags, missing
/// strings as empty, missing flags as false and missing dates as 0, the
/// stored type number cut to a byte; its content is empty where content or
/// IV is missing, and otherwise the text that the stored ciphertext
/// decrypts to under the key and the IV's bytes.
pub proof fn lemma_read_keeps_the_stored_fields(
    key: Seq<u8>,
    doc: ClipboardDocument,
    c: Clipboard,
)
    requires
        read_from_document(key, doc, c),
    ensures
        doc.id matches Some(i) ==> c.id@ == i@,
        doc.id is None ==> c.id@.len() == 0,
        doc.password matches Some(p) ==> c.password@ == p@,
        doc.password is None ==> c.password@.len() == 0,
        c.clip_type == doc.clip_type->Some_0 as u8,
        c.is_lock == (doc.is_lock == Some(true)),
        c.clip_onetime == (doc.clip_onetime == Some(true)),
        doc.date_time matches Some(n) ==> c.date_time == n,
        doc.date_time is None ==> c.date_time == 0,
        doc.expire_date matches Some(n) ==> c.expire_date == n,
        doc.expire_date is None ==> c.expire_date == 0,
        doc.clip_content is None || doc.iv is None ==> c.clip_content@.len() == 0,
        doc.clip_content is Some && doc.iv is Some ==> (aes_256_cbc_decrypt(
            key,
            encode_utf8(doc.iv->Some_0@),
            doc.clip_content->Some_0@,
        ) matches Some(plain) && valid_utf8(plain) && decode_utf8(plain) == c.clip_content@),
{
}

/// Law (expiry by the clock): a clipboard has expired at `now` exactly
/// where its expiry date is not after `now`, and once expired it stays so
/// at every later time that fits an `i64`.
pub proof fn lemma_expiry_by_date(expire_date: i64, now: u64, later: u64)
    requires
        now <= later <= i64::MAX,
    ensures
        expired_at(expire_date, now) <==> expire_date <= now,
        expired_at(expire_date, now) ==> expired_at(expire_date, later),
{
}

} // verus!
