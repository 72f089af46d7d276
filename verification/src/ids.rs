//! Random identifiers: clipboard ids, IVs and file-name prefixes, drawn
//! with `nanoid` from the operating system's random source.
use vstd::prelude::*;
use vstd::utf8::*;

verus! {

/// Every character of `s` is one of `alphabet`.
pub open spec fn drawn_from(s: Seq<char>, alphabet: Seq<char>) -> bool {
    forall|i: int| 0 <= i < s.len() ==> alphabet.contains(#[trigger] s[i])
}

/// nanoid's URL-safe alphabet (`nanoid::alphabet::SAFE`): `_`, `~`, the
/// digits, the lower-case and the upper-case ASCII letters.
pub open spec fn url_safe_alphabet() -> Seq<char> {
    seq![
        '_', '~', '0', '1', '2', '3', '4', '5', '6', '7', '8', '9', 'a', 'b', 'c', 'd', 'e', 'f',
        'g', 'h', 'i', 'j', 'k', 'l', 'm', 'n', 'o', 'p', 'q', 'r', 's', 't', 'u', 'v', 'w', 'x',
        'y', 'z', 'A', 'B', 'C', 'D', 'E', 'F', 'G', 'H', 'I', 'J', 'K', 'L', 'M', 'N', 'O', 'P',
        'Q', 'R', 'S', 'T', 'U', 'V', 'W', 'X', 'Y', 'Z',
    ]
}

/// Calls `nanoid::generate`, which draws `size` characters from nanoid's
/// 64-letter URL-safe alphabet. Claims: exactly `size` characters, each of
/// that alphabet. Which characters come out is left to chance.
/// `nanoid::generate` unwraps `OsRng::new()`, so it panics where the
/// operating system gives no random source; that is not excluded here.
#[verifier::external_body]
fn nanoid_generate(size: usize) -> (res: String)
    ensures
        res@.len() == size,
        drawn_from(res@, url_safe_alphabet()),
{
    nanoid::generate(size)
}

/// Calls `nanoid::custom`, which draws `size` characters from `alphabet`.
/// Claims: exactly `size` characters, each one of `alphabet`.
/// `nanoid::custom` loops until it has `size` characters, comparing the byte length, so it
/// needs `size >= 1` and an ASCII alphabet of at most 255 letters to end
/// (and, for a power-of-two alphabet, not to overflow a `u8`); `size` is
/// kept within a `u32` so that the random buffer it asks for, about
/// 1.6 × 255 × `size` bytes at most, stays allocatable. Like
/// `nanoid_generate`, it panics where the operating system gives no random
/// source.
#[verifier::external_body]
fn nanoid_custom(size: usize, alphabet: &[char]) -> (res: String)
    requires
        1 <= size <= u32::MAX,
        1 <= alphabet@.len() <= 255,
        is_ascii_chars(alphabet@),
    ensures
        res@.len() == size,
        drawn_from(res@, alphabet@),
{
    nanoid::custom(size, alphabet)
}

/// The 36 characters that clipboard ids are drawn from: digits, then
/// lower-case ASCII letters.
pub open spec fn id_alphabet_spec() -> Seq<char> {
    seq![
        '1', '2', '3', '4', '5', '6', '7', '8', '9', '0', 'a', 'b', 'c', 'd', 'e', 'f', 'g', 'h',
        'i', 'j', 'k', 'l', 'm', 'n', 'o', 'p', 'q', 'r', 's', 't', 'u', 'v', 'w', 'x', 'y', 'z',
    ]
}

/// The alphabet of clipboard ids.
pub fn id_alphabet() -> (res: Vec<char>)
    ensures
        res@ == id_alphabet_spec(),
{
    let v: Vec<char> = vec![
        '1', '2', '3', '4', '5', '6', '7', '8', '9', '0', 'a', 'b', 'c', 'd', 'e', 'f', 'g', 'h',
        'i', 'j', 'k', 'l', 'm', 'n', 'o', 'p', 'q', 'r', 's', 't', 'u', 'v', 'w', 'x', 'y', 'z',
    ];
    assert(v@ =~= id_alphabet_spec());
    v
}

/// Length of a clipboard id.
pub const CLIPBOARD_ID_LEN: usize = 5;

/// A fresh clipboard id: five characters of the id alphabet.
pub fn new_clipboard_id() -> (res: String)
    ensures
        res@.len() == CLIPBOARD_ID_LEN,
        drawn_from(res@, id_alphabet_spec()),
{
    let alphabet = id_alphabet();
    assert(is_ascii_chars(alphabet@)) by {
        assert forall|i: int| 0 <= i < alphabet@.len() implies '\0' <= #[trigger] alphabet@[i]
            <= '\u{7f}' by {}
    }
    nanoid_custom(CLIPBOARD_ID_LEN, alphabet.as_slice())
}

/// A random string of `size` characters of nanoid's URL-safe alphabet;
/// they are ASCII and none is `|`.
pub fn random_token(size: usize) -> (res: String)
    ensures
        res@.len() == size,
        drawn_from(res@, url_safe_alphabet()),
        is_ascii_chars(res@),
        forall|i: int| 0 <= i < res@.len() ==> res@[i] != '|',
{
    let token = nanoid_generate(size);
    proof {
        assert forall|i: int| 0 <= i < token@.len() implies '\0' <= #[trigger] token@[i] <= '\u{7f}'
            && token@[i] != '|' by {
            assert(url_safe_alphabet().contains(token@[i]));
            let k = choose|k: int| 0 <= k < url_safe_alphabet().len() && url_safe_alphabet()[k] == token@[i];
            assert(url_safe_alphabet()[k] == token@[i]);
        }
    }
    token
}

} // verus!
