//! The model: the handler that holds the content key and the storage
//! paths, what it makes of clipboards (documents to store, clipboards read
//! back) and of uploaded files (where they move, what link serves them).
use crate::clipboard::{
    creatable, decodable, prepare_clipboard_document, prepared_from, read_clipboard_document,
    read_from_document, stored_read_error, stored_text, Clipboard, ClipboardDocument,
    CreateClipboard, ModelError,
};
use crate::crypt::{derive_key, sha256_digest};
use crate::ids::{drawn_from, random_token, url_safe_alphabet};
use vstd::prelude::*;
use vstd::string::StringExecFns;
use vstd::utf8::*;

verus! {

/// What the model is built from: the application salt (the content key is
/// its SHA-256 digest), the folder that publicly served files live in, and
/// the URL prefix under which they are served.
pub struct ModelHandlerOptions {
    pub key: String,
    pub minio_public_path: String,
    pub storage_access_prefix: String,
}

/// The model's state: the 32-byte content key and the storage paths.
pub struct ModelHandler {
    key: Vec<u8>,
    minio_public_path: String,
    storage_access_prefix: String,
}

impl ModelHandler {
    /// The content key always has the 32 bytes of AES-256.
    #[verifier::type_invariant]
    spec fn key_fits_aes_256(self) -> bool {
        self.key@.len() == 32
    }

    /// Builds the model; the content key is the SHA-256 digest of the salt.
    pub fn new(opt: ModelHandlerOptions) -> (res: ModelHandler)
        ensures
            res.content_key() == sha256_digest(encode_utf8(opt.key@)),
            res.content_key().len() == 32,
            res.public_root() == opt.minio_public_path@,
            res.access_prefix() == opt.storage_access_prefix@,
    {
        ModelHandler {
            key: derive_key(opt.key.as_str()),
            minio_public_path: opt.minio_public_path,
            storage_access_prefix: opt.storage_access_prefix,
        }
    }

    /// The content key.
    pub fn key(&self) -> (res: &[u8])
        ensures
            res@ == self.content_key(),
            res@.len() == 32,
    {
        proof {
            use_type_invariant(self);
        }
        self.key.as_slice()
    }
}

/// The clipboard side of the model: the document that stores a new
/// clipboard, and the clipboard that a stored document reads back as.
pub trait ClipboardModel {
    /// The key that clipboard contents are encrypted under.
    spec fn content_key(&self) -> Seq<u8>;

    /// The document that stores the request `c`, created at `now`. It
    /// fails only for a locked request whose password bcrypt cannot hash.
    fn create_clipboard_document(&self, c: CreateClipboard, now: u64) -> (res: Result<
        ClipboardDocument,
        ModelError,
    >)
        requires
            creatable(c),
        ensures
            match res {
                Ok(doc) => prepared_from(self.content_key(), c, now, doc),
                Err(e) => e == ModelError::PasswordHash && c.is_lock,
            },
    ;

    /// The clipboard that the stored document `doc` reads back as; it fails
    /// exactly where the stored text cannot be had.
    fn retrieve_clipboard_document(&self, doc: &ClipboardDocument) -> (res: Result<
        Clipboard,
        ModelError,
    >)
        requires
            decodable(self.content_key(), *doc),
        ensures
            res is Ok <==> stored_text(self.content_key(), *doc) is Some,
            res matches Ok(c) ==> read_from_document(self.content_key(), *doc, c),
            res matches Err(e) ==> stored_read_error(self.content_key(), *doc) == Some(e),
    ;
}

impl ClipboardModel for ModelHandler {
    closed spec fn content_key(&self) -> Seq<u8> {
        self.key@
    }

    fn create_clipboard_document(&self, c: CreateClipboard, now: u64) -> (res: Result<
        ClipboardDocument,
        ModelError,
    >) {
        proof {
            use_type_invariant(self);
        }
        prepare_clipboard_document(self.key.as_slice(), c, now)
    }

    fn retrieve_clipboard_document(&self, doc: &ClipboardDocument) -> (res: Result<
        Clipboard,
        ModelError,
    >) {
        read_clipboard_document(self.key.as_slice(), doc)
    }
}

/// What storing an uploaded file comes to.
pub enum StoragePlan {
    /// Nothing is moved (no source or no file name); the link is empty.
    Skip,
    /// Create the folder `dir`, move the file at `source` to `target`, and
    /// serve it under `link`; `path` is where it lands relative to the
    /// public folder.
    Move { dir: String, source: String, target: String, link: String, path: String },
}

/// The path, relative to the public folder, under which a file named
/// `file_name` is stored in `folder`, with the random `tag` in front of its
/// name.
pub open spec fn stored_file_path(folder: Seq<char>, tag: Seq<char>, file_name: Seq<char>) -> Seq<
    char,
> {
    folder + "/"@ + tag + "_"@ + file_name
}

/// `plan` stores the file at `source` as `file_name` in `folder`, with the
/// name tag `tag`, under the public folder `root`, served under `prefix`;
/// where the source or the name is empty nothing is moved.
pub open spec fn planned_save(
    plan: StoragePlan,
    root: Seq<char>,
    prefix: Seq<char>,
    source: Seq<char>,
    folder: Seq<char>,
    file_name: Seq<char>,
    tag: Seq<char>,
) -> bool {
    if source.len() == 0 || file_name.len() == 0 {
        plan is Skip
    } else {
        match plan {
            StoragePlan::Move { dir, source: from, target, link, path } => {
                &&& path@ == stored_file_path(folder, tag, file_name)
                &&& dir@ == root + folder
                &&& from@ == source
                &&& target@ == root + stored_file_path(folder, tag, file_name)
                &&& link@ == prefix + stored_file_path(folder, tag, file_name)
            },
            StoragePlan::Skip => false,
        }
    }
}

/// The plan that stores the file at `source` as `file_name` in `folder`,
/// with the name tag `tag`, under the public folder `root`, served under
/// `prefix`.
pub fn save_plan_with_tag(
    root: &str,
    prefix: &str,
    source: &str,
    folder: &str,
    file_name: &str,
    tag: &str,
) -> (plan: StoragePlan)
    ensures
        planned_save(plan, root@, prefix@, source@, folder@, file_name@, tag@),
{
    if source.is_empty() || file_name.is_empty() {
        return StoragePlan::Skip;
    }
    let mut url_file_path = folder.to_owned();
    url_file_path.append("/");
    url_file_path.append(tag);
    url_file_path.append("_");
    url_file_path.append(file_name);
    let mut dir = root.to_owned();
    dir.append(folder);
    let mut target = root.to_owned();
    target.append(url_file_path.as_str());
    let mut link = prefix.to_owned();
    link.append(url_file_path.as_str());
    StoragePlan::Move { dir, source: source.to_owned(), target, link, path: url_file_path }
}

/// Length of the random tag in front of a stored file's name.
pub const FILE_TAG_LEN: usize = 3;

/// The storage side of the model: where uploaded files go.
pub trait StorageModel {
    /// The folder that publicly served files live in.
    spec fn public_root(&self) -> Seq<char>;

    /// The URL prefix under which stored files are served.
    spec fn access_prefix(&self) -> Seq<char>;

    /// The plan that stores the file at `source` as `file_name` in
    /// `folder`, under a random three-character tag.
    fn plan_save_to_minio(&self, source: &str, folder: &str, file_name: &str) -> (plan:
        StoragePlan)
        ensures
            exists|tag: Seq<char>|
                tag.len() == FILE_TAG_LEN && drawn_from(tag, url_safe_alphabet()) && planned_save(
                    plan,
                    self.public_root(),
                    self.access_prefix(),
                    source@,
                    folder@,
                    file_name@,
                    tag,
                ),
    ;

    /// The folder to delete for `path`: `path` under the public folder, or
    /// nothing for an empty `path`.
    fn minio_folder_to_remove(&self, path: &str) -> (res: Option<String>)
        ensures
            res is None <==> path@.len() == 0,
            res matches Some(dir) ==> dir@ == self.public_root() + path@,
    ;
}

impl StorageModel for ModelHandler {
    closed spec fn public_root(&self) -> Seq<char> {
        self.minio_public_path@
    }

    closed spec fn access_prefix(&self) -> Seq<char> {
        self.storage_access_prefix@
    }

    fn plan_save_to_minio(&self, source: &str, folder: &str, file_name: &str) -> (plan:
        StoragePlan) {
        if source.is_empty() || file_name.is_empty() {
            let plan = StoragePlan::Skip;
            let ghost tag = seq!['_', '_', '_'];
            assert(drawn_from(tag, url_safe_alphabet())) by {
                assert(url_safe_alphabet()[0] == '_');
            }
            assert(tag.len() == FILE_TAG_LEN && drawn_from(tag, url_safe_alphabet()) && planned_save(
                plan,
                self.public_root(),
                self.access_prefix(),
                source@,
                folder@,
                file_name@,
                tag,
            ));
            return plan;
        }
        let tag = random_token(FILE_TAG_LEN);
        save_plan_with_tag(
            self.minio_public_path.as_str(),
            self.storage_access_prefix.as_str(),
            source,
            folder,
            file_name,
            tag.as_str(),
        )
    }

    fn minio_folder_to_remove(&self, path: &str) -> (res: Option<String>) {
        if path.is_empty() {
            return None;
        }
        let mut dir = self.minio_public_path.clone();
        dir.append(path);
        Some(dir)
    }
}

} // verus!
