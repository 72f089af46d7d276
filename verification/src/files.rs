//! The list of uploaded files that travels from the multipart reader to the
//! upload handler: one text in which each file stands as
//! `name|path||`. Splitting follows `str::split`: leftmost, non-overlapping
//! occurrences of the separator.
use vstd::prelude::*;
use crate::crypt::utf8_text;
use crate::ids::{drawn_from, random_token, url_safe_alphabet};
use vstd::string::{StrSliceExecFns, StringExecFns};
use vstd::utf8::*;

verus! {

/// `sep` occurs in `s` at position `i`.
pub open spec fn match_at(s: Seq<char>, sep: Seq<char>, i: int) -> bool {
    0 <= i && i + sep.len() <= s.len() && s.subrange(i, i + sep.len()) == sep
}

/// The first position at or after `i` where `sep` occurs in `s`; -1 where
/// there is none.
pub open spec fn find_from(s: Seq<char>, sep: Seq<char>, i: int) -> int
    decreases s.len() - i,
{
    if i < 0 || i >= s.len() || i + sep.len() > s.len() {
        -1
    } else if match_at(s, sep, i) {
        i
    } else {
        find_from(s, sep, i + 1)
    }
}

/// What `find_from` finds: the first occurrence at or after `i`, or none.
pub proof fn lemma_find_from(s: Seq<char>, sep: Seq<char>, i: int)
    requires
        0 <= i,
        sep.len() >= 1,
    ensures
        find_from(s, sep, i) >= 0 ==> {
            &&& i <= find_from(s, sep, i)
            &&& match_at(s, sep, find_from(s, sep, i))
            &&& forall|j: int| i <= j < find_from(s, sep, i) ==> !match_at(s, sep, j)
        },
        find_from(s, sep, i) < 0 ==> find_from(s, sep, i) == -1 && forall|j: int|
            i <= j ==> !match_at(s, sep, j),
    decreases s.len() - i,
{
    if i >= s.len() || i + sep.len() > s.len() {
    } else if match_at(s, sep, i) {
    } else {
        lemma_find_from(s, sep, i + 1);
    }
}

/// `find_from` finds `k` where `sep` occurs at `k` and nowhere in `[i, k)`.
pub proof fn lemma_find_from_is(s: Seq<char>, sep: Seq<char>, i: int, k: int)
    requires
        0 <= i <= k,
        sep.len() >= 1,
        match_at(s, sep, k),
        forall|j: int| i <= j < k ==> !match_at(s, sep, j),
    ensures
        find_from(s, sep, i) == k,
    decreases k - i,
{
    if i < k {
        assert(!match_at(s, sep, i));
        lemma_find_from_is(s, sep, i + 1, k);
    }
}

/// The pieces of `s` between the occurrences of the non-empty `sep`, as
/// `str::split` gives them: the text before the first occurrence, then the
/// pieces of what follows it.
pub open spec fn split_on(s: Seq<char>, sep: Seq<char>) -> Seq<Seq<char>>
    decreases s.len(),
{
    let k = find_from(s, sep, 0);
    if sep.len() == 0 || k < 0 {
        seq![s]
    } else {
        proof {
            lemma_find_from(s, sep, 0);
        }
        seq![s.take(k)] + split_on(s.skip(k + sep.len()), sep)
    }
}

/// Splitting a text in which `sep` occurs nowhere gives the text alone.
pub proof fn lemma_split_without_separator(s: Seq<char>, sep: Seq<char>)
    requires
        sep.len() >= 1,
        forall|j: int| 0 <= j ==> !match_at(s, sep, j),
    ensures
        split_on(s, sep) == seq![s],
{
    lemma_find_from(s, sep, 0);
}

/// Splitting `a + sep + r`, where `sep` occurs nowhere before the `sep`
/// that follows `a`, gives `a` and then the pieces of `r`.
pub proof fn lemma_split_first_piece(a: Seq<char>, sep: Seq<char>, r: Seq<char>)
    requires
        sep.len() >= 1,
        forall|j: int| 0 <= j < a.len() ==> !match_at(a + sep + r, sep, j),
    ensures
        split_on(a + sep + r, sep) == seq![a] + split_on(r, sep),
{
    let s = a + sep + r;
    assert(s.subrange(a.len() as int, (a.len() + sep.len()) as int) =~= sep);
    lemma_find_from_is(s, sep, 0, a.len() as int);
    assert(s.take(a.len() as int) =~= a);
    assert(s.skip((a.len() + sep.len()) as int) =~= r);
}

/// The texts of a sequence of strings.
pub open spec fn texts(parts: Seq<String>) -> Seq<Seq<char>> {
    parts.map_values(|p: String| p@)
}

/// The characters of `s`, one by one.
fn chars_of(s: &str) -> (res: Vec<char>)
    ensures
        res@ == s@,
{
    let n = s.unicode_len();
    let mut res: Vec<char> = Vec::new();
    for i in 0..n
        invariant
            n == s@.len(),
            res@ == s@.take(i as int),
    {
        let c = s.get_char(i);
        res.push(c);
        assert(res@ =~= s@.take(i + 1));
    }
    assert(res@ =~= s@);
    res
}

/// Whether `sep` occurs in `cs` at `i`.
fn occurs_at(cs: &Vec<char>, sep: &Vec<char>, i: usize) -> (res: bool)
    requires
        i + sep@.len() <= cs@.len(),
    ensures
        res == match_at(cs@, sep@, i as int),
{
    let m = sep.len();
    let n = cs.len();
    let mut k: usize = 0;
    while k < m
        invariant
            m == sep@.len(),
            n == cs@.len(),
            i + m <= n,
            k <= m,
            forall|j: int| 0 <= j < k ==> cs@[i + j] == sep@[j],
        decreases m - k,
    {
        if cs[i + k] != sep[k] {
            assert(cs@.subrange(i as int, i + m)[k as int] != sep@[k as int]);
            return false;
        }
        k = k + 1;
    }
    assert(cs@.subrange(i as int, i + m) =~= sep@);
    true
}

/// Splits `s` at the occurrences of the non-empty `sep`, as `str::split`.
pub fn split_text(s: &str, sep: &Vec<char>) -> (parts: Vec<String>)
    requires
        sep@.len() >= 1,
    ensures
        texts(parts@) == split_on(s@, sep@),
{
    let cs = chars_of(s);
    let n = cs.len();
    let m = sep.len();
    let mut parts: Vec<String> = Vec::new();
    let mut start: usize = 0;
    let mut i: usize = 0;
    assert(s@.skip(0) =~= s@);
    assert(texts(parts@) + split_on(s@, sep@) =~= split_on(s@, sep@));
    while m <= n && i <= n - m
        invariant
            cs@ == s@,
            n == s@.len(),
            m == sep@.len(),
            m >= 1,
            start <= i <= n,
            forall|j: int| start <= j < i ==> !match_at(s@, sep@, j),
            texts(parts@) + split_on(s@.skip(start as int), sep@) == split_on(s@, sep@),
        decreases n - i,
    {
        if occurs_at(&cs, sep, i) {
            let ghost t = s@.skip(start as int);
            let ghost k = i - start;
            proof {
                assert(t.subrange(k, k + m) =~= s@.subrange(i as int, i + m));
                assert forall|j: int| 0 <= j < k implies !match_at(t, sep@, j) by {
                    if match_at(t, sep@, j) {
                        assert(t.subrange(j, j + m) =~= s@.subrange(start + j, start + j + m));
                        assert(match_at(s@, sep@, start + j));
                    }
                }
                lemma_find_from_is(t, sep@, 0, k);
                assert(t.take(k) =~= s@.subrange(start as int, i as int));
                assert(t.skip(k + m) =~= s@.skip(i + m));
            }
            let piece = s.substring_char(start, i).to_owned();
            let ghost prev = parts@;
            parts.push(piece);
            proof {
                assert(texts(parts@) =~= texts(prev).push(piece@)) by {
                    assert(parts@ =~= prev.push(piece));
                }
                assert(texts(parts@) + split_on(s@.skip(i + m), sep@) =~= texts(prev) + (
                seq![t.take(k)] + split_on(t.skip(k + m), sep@)));
            }
            i = i + m;
            start = i;
        } else {
            i = i + 1;
        }
    }
    let ghost t = s@.skip(start as int);
    proof {
        assert forall|j: int| 0 <= j implies !match_at(t, sep@, j) by {
            if match_at(t, sep@, j) {
                assert(t.subrange(j, j + m) =~= s@.subrange(start + j, start + j + m));
                assert(match_at(s@, sep@, start + j));
            }
        }
        lemma_split_without_separator(t, sep@);
    }
    let last = s.substring_char(start, n).to_owned();
    proof {
        assert(last@ =~= t);
    }
    let ghost before = parts@;
    parts.push(last);
    proof {
        assert(parts@ =~= before.push(last));
        assert(texts(parts@) =~= texts(before).push(last@));
        assert(texts(before) + seq![t] =~= texts(before).push(t));
    }
    parts
}

/// The separator between entries of a file list.
pub open spec fn entry_separator() -> Seq<char> {
    seq!['|', '|']
}

/// The separator between a file's name and its path.
pub open spec fn field_separator() -> Seq<char> {
    seq!['|']
}

/// The entries that a split file list holds: pieces are read up to the
/// first empty one; a piece that splits at `|` into exactly two parts is
/// the entry (name, path), any other piece is skipped.
pub open spec fn entries_of(pieces: Seq<Seq<char>>) -> Seq<(Seq<char>, Seq<char>)>
    decreases pieces.len(),
{
    if pieces.len() == 0 || pieces[0].len() == 0 {
        Seq::empty()
    } else {
        let parts = split_on(pieces[0], field_separator());
        let rest = entries_of(pieces.drop_first());
        if parts.len() == 2 {
            seq![(parts[0], parts[1])] + rest
        } else {
            rest
        }
    }
}

/// The (name, path) entries that the file list `files` holds.
pub open spec fn file_entries(files: Seq<char>) -> Seq<(Seq<char>, Seq<char>)> {
    entries_of(split_on(files, entry_separator()))
}

/// An uploaded file: the name it was sent under, and the path of the
/// temporary file that holds it.
pub struct FileEntry {
    pub name: String,
    pub path: String,
}

impl View for FileEntry {
    type V = (Seq<char>, Seq<char>);

    open spec fn view(&self) -> (Seq<char>, Seq<char>) {
        (self.name@, self.path@)
    }
}

/// The (name, path) pairs of a sequence of entries.
pub open spec fn entry_views(entries: Seq<FileEntry>) -> Seq<(Seq<char>, Seq<char>)> {
    entries.map_values(|e: FileEntry| e@)
}

/// Reads the entries of a file list: splits it at `||`, stops at the first
/// empty piece, and keeps each piece that splits at `|` into exactly a name
/// and a path.
pub fn parse_file_list(files: &str) -> (entries: Vec<FileEntry>)
    ensures
        entry_views(entries@) == file_entries(files@),
{
    let entry_sep: Vec<char> = vec!['|', '|'];
    let field_sep: Vec<char> = vec!['|'];
    assert(entry_sep@ =~= entry_separator());
    assert(field_sep@ =~= field_separator());
    let pieces = split_text(files, &entry_sep);
    let ghost all = texts(pieces@);
    let mut entries: Vec<FileEntry> = Vec::new();
    let mut k: usize = 0;
    assert(all.skip(0) =~= all);
    assert(entry_views(entries@) + entries_of(all) =~= entries_of(all));
    while k < pieces.len()
        invariant
            all == texts(pieces@),
            all == split_on(files@, entry_separator()),
            field_sep@ == field_separator(),
            k <= pieces@.len(),
            entry_views(entries@) + entries_of(all.skip(k as int)) == file_entries(files@),
        decreases pieces@.len() - k,
    {
        let piece = &pieces[k];
        let ghost rest = all.skip(k as int);
        assert(rest[0] == piece@);
        assert(rest.drop_first() =~= all.skip(k + 1));
        if piece.as_str().is_empty() {
            assert(entries_of(rest) =~= Seq::<(Seq<char>, Seq<char>)>::empty());
            assert(entry_views(entries@) + entries_of(rest) =~= entry_views(entries@));
            return entries;
        }
        let parts = split_text(piece.as_str(), &field_sep);
        let ghost prev = entries@;
        if parts.len() == 2 {
            let entry = FileEntry { name: parts[0].clone(), path: parts[1].clone() };
            entries.push(entry);
            assert(texts(parts@)[0] == parts@[0]@);
            assert(texts(parts@)[1] == parts@[1]@);
            assert(entry_views(entries@) =~= entry_views(prev).push(entry@));
            assert(entry_views(entries@) + entries_of(all.skip(k + 1)) =~= entry_views(prev) + (
            seq![entry@] + entries_of(all.skip(k + 1))));
        }
        k = k + 1;
    }
    assert(all.skip(k as int) =~= Seq::<Seq<char>>::empty());
    assert(entry_views(entries@) + entries_of(all.skip(k as int)) =~= entry_views(entries@));
    entries
}

/// How one file stands in a file list: `name|path||`.
pub open spec fn entry_text(entry: (Seq<char>, Seq<char>)) -> Seq<char> {
    entry.0 + field_separator() + entry.1 + entry_separator()
}

/// The file list that holds `entries`, in order.
pub open spec fn file_list_text(entries: Seq<(Seq<char>, Seq<char>)>) -> Seq<char>
    decreases entries.len(),
{
    if entries.len() == 0 {
        Seq::empty()
    } else {
        entry_text(entries[0]) + file_list_text(entries.drop_first())
    }
}

/// Appending an entry's text to a file list gives the list with the entry
/// at the end.
pub proof fn lemma_file_list_text_push(
    entries: Seq<(Seq<char>, Seq<char>)>,
    entry: (Seq<char>, Seq<char>),
)
    ensures
        file_list_text(entries.push(entry)) == file_list_text(entries) + entry_text(entry),
    decreases entries.len(),
{
    if entries.len() == 0 {
        assert(entries.push(entry).drop_first() =~= entries);
        assert(file_list_text(entries.push(entry)) =~= file_list_text(entries) + entry_text(
            entry,
        ));
    } else {
        assert(entries.push(entry).drop_first() =~= entries.drop_first().push(entry));
        lemma_file_list_text_push(entries.drop_first(), entry);
        assert(file_list_text(entries.push(entry)) =~= file_list_text(entries) + entry_text(
            entry,
        ));
    }
}

/// Appends the entry `name|path||` to the file list `files`.
pub fn append_file_entry(files: &mut String, name: &str, path: &str)
    ensures
        final(files)@ == old(files)@ + entry_text((name@, path@)),
{
    files.append(name);
    files.append("|");
    files.append(path);
    files.append("||");
    proof {
        reveal_strlit("|");
        reveal_strlit("||");
        assert(final(files)@ =~= old(files)@ + entry_text((name@, path@)));
    }
}

/// The file list to hand on: none where no file was added.
pub fn finished_file_list(files: String) -> (res: Option<String>)
    ensures
        res is None <==> files@.len() == 0,
        res matches Some(t) ==> t@ == files@,
{
    if files.as_str().is_empty() {
        None
    } else {
        Some(files)
    }
}

/// `s` holds no `|`.
pub open spec fn bar_free(s: Seq<char>) -> bool {
    forall|i: int| 0 <= i < s.len() ==> s[i] != '|'
}

/// Entries that a file list carries faithfully: names and paths without
/// `|`, and paths that are not empty.
pub open spec fn listable(entries: Seq<(Seq<char>, Seq<char>)>) -> bool {
    forall|i: int|
        0 <= i < entries.len() ==> bar_free(#[trigger] entries[i].0) && bar_free(entries[i].1)
            && entries[i].1.len() > 0
}

/// Law (file lists round-trip): reading the file list that holds entries
/// whose names and paths have no `|` and whose paths are not empty gives
/// back exactly those entries, in order.
pub proof fn lemma_file_list_round_trip(entries: Seq<(Seq<char>, Seq<char>)>)
    requires
        listable(entries),
    ensures
        file_entries(file_list_text(entries)) == entries,
    decreases entries.len(),
{
    let sep = entry_separator();
    if entries.len() == 0 {
        let empty = Seq::<char>::empty();
        assert(file_list_text(entries) =~= empty);
        assert(split_on(empty, sep) =~= seq![empty]);
        assert(entries_of(seq![empty]) =~= Seq::<(Seq<char>, Seq<char>)>::empty());
        assert(entries =~= Seq::<(Seq<char>, Seq<char>)>::empty());
    } else {
        let (name, path) = entries[0];
        let piece = name + field_separator() + path;
        let rest = entries.drop_first();
        let rest_text = file_list_text(rest);
        assert(listable(rest)) by {
            assert forall|i: int| 0 <= i < rest.len() implies bar_free(#[trigger] rest[i].0)
                && bar_free(rest[i].1) && rest[i].1.len() > 0 by {
                assert(rest[i] == entries[i + 1]);
            }
        }
        lemma_file_list_round_trip(rest);
        assert(bar_free(name) && bar_free(path) && path.len() > 0);
        let text = piece + sep + rest_text;
        assert(file_list_text(entries) =~= text);
        // No `||` begins inside the piece: the piece holds one `|`, and its
        // last character (the path's last) is not `|`.
        assert forall|j: int| 0 <= j < piece.len() implies !match_at(text, sep, j) by {
            if match_at(text, sep, j) {
                assert(text.subrange(j, j + 2)[0] == '|');
                assert(text.subrange(j, j + 2)[1] == '|');
                assert(text[j] == '|');
                assert(text[j + 1] == '|');
                if j < name.len() {
                    assert(text[j] == name[j]);
                } else if j == name.len() {
                    assert(text[j + 1] == path[0]);
                } else {
                    assert(text[j] == path[j - name.len() - 1]);
                }
            }
        }
        lemma_split_first_piece(piece, sep, rest_text);
        // The piece splits at `|` into the name and the path.
        let fsep = field_separator();
        assert forall|j: int| 0 <= j < name.len() implies !match_at(piece, fsep, j) by {
            if match_at(piece, fsep, j) {
                assert(piece.subrange(j, j + 1)[0] == '|');
                assert(piece[j] == name[j]);
            }
        }
        assert(piece =~= name + fsep + path);
        lemma_split_first_piece(name, fsep, path);
        assert forall|j: int| 0 <= j implies !match_at(path, fsep, j) by {
            if match_at(path, fsep, j) {
                assert(path.subrange(j, j + 1)[0] == '|');
                assert(path[j] == '|');
            }
        }
        lemma_split_without_separator(path, fsep);
        let pieces = seq![piece] + split_on(rest_text, sep);
        assert(split_on(piece, fsep) =~= seq![name, path]);
        assert(pieces[0] == piece);
        assert(piece.len() > 0);
        assert(pieces.drop_first() =~= split_on(rest_text, sep));
        assert(entries_of(pieces) =~= seq![(name, path)] + rest);
        assert(entries =~= seq![(name, path)] + rest);
    }
}

/// Length of the random name of a temporary upload file.
pub const TEMP_NAME_LEN: usize = 21;

/// The path of a fresh temporary file for an upload: the temporary folder
/// followed by 21 random URL-safe characters (what `nanoid::simple` draws).
pub fn temp_file_path(temp_path: &str) -> (res: String)
    ensures
        res@.len() == temp_path@.len() + TEMP_NAME_LEN,
        res@.take(temp_path@.len() as int) == temp_path@,
        drawn_from(res@.skip(temp_path@.len() as int), url_safe_alphabet()),
        bar_free(res@.skip(temp_path@.len() as int)),
{
    let name = random_token(TEMP_NAME_LEN);
    let mut path = temp_path.to_owned();
    path.append(name.as_str());
    proof {
        assert(path@.take(temp_path@.len() as int) =~= temp_path@);
        assert(path@.skip(temp_path@.len() as int) =~= name@);
        assert forall|i: int| 0 <= i < name@.len() implies name@[i] != '|' by {
            assert('\0' <= name@[i] <= '\u{7f}');
        }
    }
    path
}

/// The text of a non-file form field: its bytes decoded as UTF-8, or empty
/// where they are not UTF-8.
pub fn field_text(bytes: Vec<u8>) -> (res: String)
    ensures
        valid_utf8(bytes@) ==> res@ == decode_utf8(bytes@),
        !valid_utf8(bytes@) ==> res@.len() == 0,
{
    match utf8_text(bytes) {
        Some(s) => s,
        None => String::new(),
    }
}

/// Puts a stored file's (name, link) in front of the links gathered so far,
/// so that the response lists the files last-stored first.
pub fn prepend_link(links: &mut Vec<(String, String)>, name: String, link: String)
    ensures
        final(links)@ == seq![(name, link)] + old(links)@,
{
    links.insert(0, (name, link));
    proof {
        assert(final(links)@ =~= seq![(name, link)] + old(links)@);
    }
}

/// Whether a form field named `name` carries the uploaded files, which
/// come in the field named `file_field`; every other field carries text.
pub fn is_file_field(name: &str, file_field: &str) -> (res: bool)
    ensures
        res == (name@ == file_field@),
{
    let name: String = name.to_owned();
    let file_field: String = file_field.to_owned();
    name == file_field
}

} // verus!
