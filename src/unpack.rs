//! Reading archives in memory, through the `zip` crate.

use vstd::prelude::*;
use crate::archive::string_views;
use crate::text::{ends_with_ies, has_ies_extension};

verus! {

#[verifier::external_type_specification]
#[verifier::external_body]
#[verifier::reject_recursive_types(R)]
pub struct ExZipArchive<R>(zip::ZipArchive<R>);

#[verifier::external_type_specification]
#[verifier::external_body]
#[verifier::reject_recursive_types(T)]
pub struct ExCursor<T>(std::io::Cursor<T>);

#[verifier::external_type_specification]
#[verifier::external_body]
pub struct ExZipError(zip::result::ZipError);

/// An archive read from bytes held in memory.
pub type MemoryArchive = zip::ZipArchive<std::io::Cursor<Vec<u8>>>;

/// The entry names of the archive held in `bytes` (each name once, in the
/// order in which it first appears in the central directory), or none when
/// `bytes` cannot be read as an archive.
pub uninterp spec fn zip_names(bytes: Seq<u8>) -> Option<Seq<Seq<char>>>;

/// Entry number `i` of the archive held in `bytes` exists and can be opened
/// (it is not encrypted, its compression is supported, its header reads).
pub uninterp spec fn entry_opens(bytes: Seq<u8>, i: int) -> bool;

/// The decompressed contents of the entry called `name` in the archive held
/// in `bytes`, or none when there is no such entry or it cannot be read.
pub uninterp spec fn zip_entry_data(bytes: Seq<u8>, name: Seq<char>) -> Option<Seq<u8>>;

/// The bytes an archive reads from.
pub uninterp spec fn archive_source(a: MemoryArchive) -> Seq<u8>;

/// The names an archive indexes its entries by, each once, in the order in
/// which they first appear in its central directory.
pub uninterp spec fn archive_names(a: MemoryArchive) -> Seq<Seq<char>>;

/// Among the first `n` entries of an archive held in `src` with entry names
/// `names`, the names of those that open and end in `.ies` (in any case), in
/// archive order.
pub open spec fn ies_entries_upto(src: Seq<u8>, names: Seq<Seq<char>>, n: int) -> Seq<Seq<char>>
    decreases n,
{
    if n <= 0 {
        Seq::empty()
    } else {
        ies_entries_upto(src, names, n - 1) + if entry_opens(src, n - 1) && has_ies_extension(names[n - 1]) {
            seq![names[n - 1]]
        } else {
            Seq::empty()
        }
    }
}

/// The names of the entries that open and end in `.ies`, in archive order.
pub open spec fn ies_entries(src: Seq<u8>, names: Seq<Seq<char>>) -> Seq<Seq<char>> {
    ies_entries_upto(src, names, names.len() as int)
}

/// Why an entry's contents could not be had: it could not be opened (the
/// message of the archive's error), or its data could not be read.
pub enum EntryError {
    Open(String),
    Read(String),
}

/// Relies on `zip::ZipArchive::new` over a `std::io::Cursor`: reads the
/// central directory of the archive held in `bytes`.
#[verifier::external_body]
pub fn open_archive(bytes: Vec<u8>) -> (r: Result<MemoryArchive, zip::result::ZipError>)
    ensures
        r is Err <==> zip_names(bytes@) is None,
        r matches Ok(a) ==> zip_names(bytes@) == Some(archive_names(a)) && archive_source(a) == bytes@,
{
    zip::ZipArchive::new(std::io::Cursor::new(bytes))
}

/// Relies on `zip::ZipArchive::len`: the number of entries.
#[verifier::external_body]
pub fn entry_count(a: &MemoryArchive) -> (r: usize)
    ensures
        r == archive_names(*a).len(),
{
    a.len()
}

/// Relies on `zip::ZipArchive::by_index` and `ZipFile::name`: the name of
/// entry `i`, or none when that entry does not exist or cannot be opened.
#[verifier::external_body]
pub fn entry_name(a: &mut MemoryArchive, i: usize) -> (r: Option<String>)
    ensures
        archive_names(*final(a)) == archive_names(*old(a)),
        archive_source(*final(a)) == archive_source(*old(a)),
        r is Some <==> entry_opens(archive_source(*old(a)), i as int),
        r matches Some(n) ==> i < archive_names(*old(a)).len() && n@ == archive_names(*old(a))[i as int],
{
    a.by_index(i).ok().map(|f| f.name().to_string())
}

/// Relies on `zip::ZipArchive::by_name` and `Read::read_to_end` on the
/// entry: the decompressed contents of the entry called `name`.
#[verifier::external_body]
pub fn read_entry(a: &mut MemoryArchive, name: &str) -> (r: Result<Vec<u8>, EntryError>)
    ensures
        archive_names(*final(a)) == archive_names(*old(a)),
        archive_source(*final(a)) == archive_source(*old(a)),
        r is Ok <==> zip_entry_data(archive_source(*old(a)), name@) is Some,
        r matches Ok(c) ==> zip_entry_data(archive_source(*old(a)), name@) == Some(c@),
{
    let mut file = a.by_name(name).map_err(|e| EntryError::Open(e.to_string()))?;
    let mut contents = Vec::new();
    std::io::Read::read_to_end(&mut file, &mut contents).map_err(|e| EntryError::Read(e.to_string()))?;
    Ok(contents)
}

/// The names of the archive's entries that open and end in `.ies` (in any
/// case), in archive order.
pub fn ies_entry_names(a: &mut MemoryArchive) -> (r: Vec<String>)
    ensures
        archive_names(*final(a)) == archive_names(*old(a)),
        archive_source(*final(a)) == archive_source(*old(a)),
        string_views(r@) == ies_entries(archive_source(*old(a)), archive_names(*old(a))),
{
    let ghost names = archive_names(*a);
    let ghost src = archive_source(*a);
    let n = entry_count(a);
    let mut r: Vec<String> = Vec::new();
    let mut i: usize = 0;
    while i < n
        invariant
            n == names.len(),
            archive_names(*a) == names,
            archive_source(*a) == src,
            i <= n,
            string_views(r@) == ies_entries_upto(src, names, i as int),
        decreases n - i,
    {
        let ghost before = r@;
        if let Some(name) = entry_name(a, i) {
            if ends_with_ies(name.as_str()) {
                r.push(name);
                assert(string_views(r@) =~= string_views(before).push(names[i as int]));
            }
        }
        i += 1;
    }
    r
}

} // verus!
