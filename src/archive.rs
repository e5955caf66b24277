use vstd::prelude::*;

verus! {

#[verifier::external_type_specification]
#[verifier::external_body]
#[verifier::reject_recursive_types(T)]
pub struct ExCursor<T>(std::io::Cursor<T>);

#[verifier::external_type_specification]
#[verifier::external_body]
#[verifier::reject_recursive_types(R)]
pub struct ExZipArchive<R>(zip::ZipArchive<R>);

#[verifier::external_type_specification]
#[verifier::external_body]
pub struct ExZipError(zip::result::ZipError);

#[verifier::external_type_specification]
#[verifier::external_body]
pub struct ExInvalidPassword(zip::result::InvalidPassword);

/// A zip archive read from bytes held in memory.
pub type Archive = zip::ZipArchive<std::io::Cursor<Vec<u8>>>;

/// Whether `zip::ZipArchive::new` reads a central directory from these bytes.
pub uninterp spec fn zip_opens(data: Seq<u8>) -> bool;

/// The entries of an archive, in central-directory order: each entry's name
/// and decompressed bytes, or `None` where opening or reading it fails.
pub uninterp spec fn zip_entries(a: Archive) -> Seq<Option<(Seq<char>, Seq<u8>)>>;

/// The entries of the archive that `zip::ZipArchive::new` reads from these
/// bytes, in the form that `zip_entries` gives them.
pub uninterp spec fn zip_entries_of(data: Seq<u8>) -> Seq<Option<(Seq<char>, Seq<u8>)>>;

/// Relies on `zip::ZipArchive::new`: reads the central directory of the
/// bytes, or fails on what is not a readable archive.
#[verifier::external_body]
pub(crate) fn open_archive(data: Vec<u8>) -> (r: Result<Archive, zip::result::ZipError>)
    ensures
        r is Ok <==> zip_opens(data@),
        r matches Ok(a) ==> zip_entries(a) == zip_entries_of(data@),
{
    zip::ZipArchive::new(std::io::Cursor::new(data))
}

/// Relies on `zip::ZipArchive::len`: the number of entries.
#[verifier::external_body]
pub(crate) fn archive_len(a: &Archive) -> (r: usize)
    ensures
        r == zip_entries(*a).len(),
{
    a.len()
}

/// Relies on `zip::ZipArchive::by_index_decrypt` for entry `i` (the password
/// is only consulted for encrypted entries; the inner error comes where
/// `by_index` would panic), then on that entry's `name` and its
/// `std::io::Read` impl: the entry's name and decompressed bytes.
#[verifier::external_body]
pub(crate) fn read_entry(a: &mut Archive, i: usize) -> (r: Result<
    Result<(String, Vec<u8>), zip::result::InvalidPassword>,
    zip::result::ZipError,
>)
    ensures
        zip_entries(*final(a)) == zip_entries(*old(a)),
        i < zip_entries(*old(a)).len() ==> match zip_entries(*old(a))[i as int] {
            Some(e) => (r matches Ok(Ok(p)) && p.0@ == e.0 && p.1@ == e.1),
            None => !(r matches Ok(Ok(_))),
        },
{
    let mut entry = match a.by_index_decrypt(i, b"")? {
        Ok(entry) => entry,
        Err(e) => return Ok(Err(e)),
    };
    let name = entry.name().to_string();
    let mut bytes: Vec<u8> = Vec::new();
    std::io::Read::read_to_end(&mut entry, &mut bytes)?;
    Ok(Ok((name, bytes)))
}

} // verus!
