//! The names of buckets and files on disk.
//!
//! A bucket is a directory under the home directory of a context, and a file
//! is a database file in it. The name of each on disk is the reversible
//! encoding of its logical name; a file name is followed by `.db`.

use vstd::prelude::*;
use vstd::string::StringExecFns;
use vstd::utf8::{encode_utf8, encode_utf8_decode_utf8, encode_utf8_valid_utf8};
use crate::codec::{
    base64_bytes,
    base64_decode,
    base64_encode,
    base64_text,
    fits_encoding,
    lossy_text,
    text_of,
};
use crate::error::RusqliteError;

verus! {

/// The text of the path made of `base` and one more component, as the
/// platform joins paths, where that path is text.
pub uninterp spec fn path_joined(base: Seq<char>, part: Seq<char>) -> Option<Seq<char>>;

/// `Path::join`, from text to text: the path with `part` adjoined.
#[verifier::external_body]
fn join_path(base: &str, part: &str) -> (joined: Option<String>)
    ensures
        match joined {
            Some(path) => path_joined(base@, part@) == Some(path@),
            None => path_joined(base@, part@) is None,
        },
{
    std::path::Path::new(base).join(part).into_os_string().into_string().ok()
}

/// The name on disk of a logical name.
pub open spec fn mangled(name: Seq<char>) -> Seq<char> {
    base64_text(encode_utf8(name))
}

/// The logical name that a name on disk stands for, if it stands for one.
pub open spec fn demangled(text: Seq<char>) -> Option<Seq<char>> {
    match base64_bytes(text) {
        Some(bytes) => Some(text_of(bytes)),
        None => None,
    }
}

/// The name on disk of a database file with this logical name.
pub open spec fn mangled_file(name: Seq<char>) -> Seq<char> {
    mangled(name) + ".db"@
}

/// A name on disk without its last three characters.
pub open spec fn without_suffix(text: Seq<char>) -> Seq<char> {
    text.subrange(0, text.len() - 3)
}

/// The directory of a bucket under a home directory.
pub open spec fn bucket_path(home: Seq<char>, bucket: Seq<char>) -> Option<Seq<char>> {
    path_joined(home, mangled(bucket))
}

/// The database file of a logical file name in a bucket.
pub open spec fn file_path(home: Seq<char>, bucket: Seq<char>, filename: Seq<char>) -> Option<
    Seq<char>,
> {
    match bucket_path(home, bucket) {
        Some(directory) => path_joined(directory, mangled_file(filename)),
        None => None,
    }
}

/// The result is the path, or the refusal of a path that is no text.
pub open spec fn is_path(result: Result<String, RusqliteError>, path: Option<Seq<char>>) -> bool {
    match path {
        Some(text) => result matches Ok(p) && p@ == text,
        None => result matches Err(RusqliteError::IoError(m)) && m@
            == "Cannot convert path to str"@,
    }
}

/// The directory name of a bucket. Decoding it gives the bucket's name back.
pub fn mangle_bucket(bucket: &str) -> (name: String)
    requires
        fits_encoding(encode_utf8(bucket@).len()),
    ensures
        name@ == mangled(bucket@),
        demangled(name@) == Some(bucket@),
{
    proof {
        encode_utf8_valid_utf8(bucket@);
        encode_utf8_decode_utf8(bucket@);
    }
    base64_encode(bucket.as_bytes())
}

/// The file name of a database file. Decoding it without its suffix gives
/// the logical name back.
pub fn mangle_filename(filename: &str) -> (name: String)
    requires
        fits_encoding(encode_utf8(filename@).len()),
    ensures
        name@ == mangled_file(filename@),
        demangled(without_suffix(name@)) == Some(filename@),
{
    proof {
        encode_utf8_valid_utf8(filename@);
        encode_utf8_decode_utf8(filename@);
        reveal_strlit(".db");
    }
    let mut name = base64_encode(filename.as_bytes());
    let ghost encoded = name@;
    name.append(".db");
    assert(without_suffix(name@) =~= encoded);
    name
}

/// The logical name that a name on disk stands for: `None` where the name is
/// not an encoding.
pub fn get_filename(stem: &str) -> (name: Option<String>)
    ensures
        match name {
            Some(n) => demangled(stem@) == Some(n@),
            None => demangled(stem@) is None,
        },
{
    match base64_decode(stem) {
        Ok(bytes) => Some(lossy_text(bytes.as_slice())),
        Err(_) => None,
    }
}

/// The path, or the refusal of a path that is no text.
fn path_or_refusal(joined: Option<String>) -> (result: Result<String, RusqliteError>)
    ensures
        is_path(
            result,
            match joined {
                Some(p) => Some(p@),
                None => None,
            },
        ),
{
    match joined {
        Some(path) => Ok(path),
        None => Err(RusqliteError::IoError("Cannot convert path to str".to_owned())),
    }
}

/// The directory of a bucket under a home directory.
pub fn bucket_target_path(home: &str, bucket: &str) -> (path: Result<String, RusqliteError>)
    requires
        fits_encoding(encode_utf8(bucket@).len()),
    ensures
        is_path(path, bucket_path(home@, bucket@)),
{
    let mangled_bucket = mangle_bucket(bucket);
    path_or_refusal(join_path(home, mangled_bucket.as_str()))
}

/// The database file of a logical file name in a bucket: the path by which
/// the engine opens it.
pub fn file_target_path(home: &str, bucket: &str, filename: &str) -> (path: Result<
    String,
    RusqliteError,
>)
    requires
        fits_encoding(encode_utf8(bucket@).len()),
        fits_encoding(encode_utf8(filename@).len()),
    ensures
        is_path(path, file_path(home@, bucket@, filename@)),
{
    let mangled_filename = mangle_filename(filename);
    match bucket_target_path(home, bucket) {
        Ok(directory) => path_or_refusal(
            join_path(directory.as_str(), mangled_filename.as_str()),
        ),
        Err(e) => Err(e),
    }
}

/// What a directory entry is.
#[derive(Clone, Copy, PartialEq, Eq, Structural, Debug)]
pub enum EntryKind {
    Directory,
    File,
    Other,
}

/// One entry of a directory: what it is, and its name without extension
/// where that name is valid Unicode.
#[derive(Debug)]
pub struct ListedEntry {
    pub kind: EntryKind,
    pub stem: Option<String>,
}

/// The logical name that an entry stands for, if it is of the wanted kind
/// and its name is an encoding.
pub open spec fn entry_name(entry: ListedEntry, wanted: EntryKind) -> Option<Seq<char>> {
    if entry.kind != wanted {
        None
    } else {
        match entry.stem {
            Some(stem) => demangled(stem@),
            None => None,
        }
    }
}

/// The logical names of the entries of the wanted kind, in the order of the
/// entries; an entry that stands for no name is passed over.
pub open spec fn logical_names(entries: Seq<ListedEntry>, wanted: EntryKind) -> Seq<Seq<char>>
    decreases entries.len(),
{
    if entries.len() == 0 {
        Seq::empty()
    } else {
        let before = logical_names(entries.drop_last(), wanted);
        match entry_name(entries.last(), wanted) {
            Some(name) => before.push(name),
            None => before,
        }
    }
}

/// The content of a list of names.
pub open spec fn texts(names: Seq<String>) -> Seq<Seq<char>> {
    names.map_values(|name: String| name@)
}

/// Decodes the entries of a directory into the logical names of those of the
/// wanted kind.
pub fn list_names(entries: &Vec<ListedEntry>, wanted: EntryKind) -> (names: Vec<String>)
    ensures
        texts(names@) == logical_names(entries@, wanted),
{
    let mut names: Vec<String> = Vec::new();
    let mut i: usize = 0;
    assert(entries@.take(0) =~= Seq::<ListedEntry>::empty());
    assert(texts(names@) =~= Seq::<Seq<char>>::empty());
    while i < entries.len()
        invariant
            i <= entries.len(),
            texts(names@) == logical_names(entries@.take(i as int), wanted),
        decreases entries.len() - i,
    {
        let ghost before = names@;
        assert(entries@.take(i + 1).drop_last() =~= entries@.take(i as int));
        assert(entries@.take(i + 1).last() == entries@[i as int]);
        if entries[i].kind == wanted {
            if let Some(stem) = &entries[i].stem {
                if let Some(name) = get_filename(stem.as_str()) {
                    names.push(name);
                    assert(texts(names@) =~= texts(before).push(name@));
                }
            }
        }
        i = i + 1;
    }
    assert(entries@.take(i as int) =~= entries@);
    names
}

/// The buckets among the entries of a home directory.
pub fn bucket_names(entries: &Vec<ListedEntry>) -> (names: Vec<String>)
    ensures
        texts(names@) == logical_names(entries@, EntryKind::Directory),
{
    list_names(entries, EntryKind::Directory)
}

/// The files among the entries of a bucket directory.
pub fn file_names(entries: &Vec<ListedEntry>) -> (names: Vec<String>)
    ensures
        texts(names@) == logical_names(entries@, EntryKind::File),
{
    list_names(entries, EntryKind::File)
}

} // verus!
