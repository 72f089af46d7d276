//! Password hashing for locked clipboards, through `bcrypt`.
use bcrypt::BcryptError;
use vstd::prelude::*;
use vstd::utf8::*;

verus! {

#[verifier::external_type_specification]
#[verifier::external_body]
pub struct ExBcryptError(BcryptError);

/// What `bcrypt::verify(password, hash)` answers: `Some(matches)` where
/// `hash` parses as a bcrypt hash, `None` where it errs.
pub uninterp spec fn bcrypt_verify_outcome(password: Seq<char>, hash: Seq<char>) -> Option<bool>;

/// A string that `bcrypt` can take as a hash at all: 60 ASCII characters.
pub open spec fn bcrypt_hash_shaped(hash: Seq<char>) -> bool {
    hash.len() == 60 && is_ascii_chars(hash)
}

/// The decimal digits.
pub open spec fn decimal_digits() -> Seq<char> {
    seq!['0', '1', '2', '3', '4', '5', '6', '7', '8', '9']
}

/// The first seven characters of a bcrypt hash of version 2b made at
/// `cost` (below 100): `$2b$`, the cost in two digits, `$`.
pub open spec fn bcrypt_prefix(cost: u32) -> Seq<char> {
    seq!['$', '2', 'b', '$'] + seq![decimal_digits()[(cost / 10) as int], decimal_digits()[(
    cost % 10) as int], '$']
}

/// Calls `bcrypt::hash`, which salts from the operating system's random
/// source. Claims what `bcrypt::hash` and `bcrypt::verify` show: a cost
/// outside 4..=31 is an error;
/// a hash that comes back is 60 ASCII characters, and `bcrypt::verify`
/// accepts the same password against it (it re-hashes with the parsed
/// cost and salt); it begins with `$2b$`, the cost in two digits and `$`
/// (`HashParts::format` writes version 2b with `{:02}` for the cost). Which salt is drawn, and whether drawing it fails, is
/// left to chance.
#[verifier::external_body]
fn bcrypt_hash(password: &str, cost: u32) -> (res: Result<String, BcryptError>)
    ensures
        !(4 <= cost <= 31) ==> res is Err,
        res matches Ok(h) ==> bcrypt_hash_shaped(h@) && bcrypt_verify_outcome(password@, h@)
            == Some(true),
        res matches Ok(h) ==> h@.take(7) == bcrypt_prefix(cost),
{
    bcrypt::hash(password, cost)
}

/// Calls `bcrypt::verify(password, hash)`. Claims: the answer is the named
/// outcome, and (from `split_hash`, which `bcrypt::verify` calls first) a
/// `hash` that is not 60
/// ASCII characters is an error.
#[verifier::external_body]
fn bcrypt_verify(password: &str, hash: &str) -> (res: Result<bool, BcryptError>)
    ensures
        res matches Ok(b) ==> bcrypt_verify_outcome(password@, hash@) == Some(b),
        res is Err ==> bcrypt_verify_outcome(password@, hash@) is None,
        !bcrypt_hash_shaped(hash@) ==> res is Err,
{
    bcrypt::verify(password, hash)
}

/// The work factor that clipboard passwords are hashed with.
pub const PASSWORD_COST: u32 = 4;

/// How a hash made by `hash_password` begins: version 2b at cost 4.
pub open spec fn password_hash_prefix() -> Seq<char> {
    seq!['$', '2', 'b', '$', '0', '4', '$']
}

/// Hashes a clipboard password with bcrypt at cost 4. `None` where bcrypt
/// fails (it could not draw a salt).
pub fn hash_password(password: &str) -> (res: Option<String>)
    ensures
        res matches Some(h) ==> bcrypt_hash_shaped(h@) && bcrypt_verify_outcome(password@, h@)
            == Some(true),
        res matches Some(h) ==> h@.take(7) == password_hash_prefix(),
{
    assert(bcrypt_prefix(PASSWORD_COST) =~= password_hash_prefix());
    match bcrypt_hash(password, PASSWORD_COST) {
        Ok(h) => Some(h),
        Err(_) => None,
    }
}

/// Whether bcrypt accepts `password` against `hash`; an unparsable hash is
/// a refusal.
pub fn bcrypt_accepts(password: &str, hash: &str) -> (res: bool)
    ensures
        res == (bcrypt_verify_outcome(password@, hash@) == Some(true)),
        !bcrypt_hash_shaped(hash@) ==> !res,
{
    match bcrypt_verify(password, hash) {
        Ok(b) => b,
        Err(_) => false,
    }
}

} // verus!
