//! The Wintun driver that the Windows client needs: where it is published, and
//! taking the driver library for an architecture out of the published archive.

use vstd::prelude::*;
use crate::detect::Arch;

verus! {

#[verifier::external_type_specification]
#[verifier::external_body]
pub struct ExZipError(zip::result::ZipError);

#[verifier::external_type_specification]
#[verifier::external_body]
pub struct ExIoError(std::io::Error);

/// Whether `zip::ZipArchive::new` reads `archive` as a zip archive.
pub uninterp spec fn zip_archive_readable(archive: Seq<u8>) -> bool;

/// Whether `ZipArchive::by_name` opens the file `name` of the readable zip archive
/// `archive`: it is there, and neither encrypted nor compressed with an unsupported method.
pub uninterp spec fn zip_entry_found(archive: Seq<u8>, name: Seq<char>) -> bool;

/// The contents of the file `name` found in the zip archive `archive`, where that file
/// reads back to its end without error (decompression and checksum included).
pub uninterp spec fn zip_entry_contents(archive: Seq<u8>, name: Seq<char>) -> Option<Seq<u8>>;

/// Why a file could not be read out of a zip archive.
#[derive(Debug)]
pub enum ZipReadError {
    /// The bytes are not a zip archive that can be read.
    Archive(zip::result::ZipError),
    /// The archive has no such file that can be opened.
    Entry(zip::result::ZipError),
    /// The file was found but reading it failed.
    Read(std::io::Error),
}

/// Reads the file `name` out of the zip archive `archive` with `zip::ZipArchive::new`,
/// `ZipArchive::by_name` and `Read::read_to_end`. Trusted: which of the three calls
/// fails, if one does, and the contents returned, are those named by
/// `zip_archive_readable`, `zip_entry_found` and `zip_entry_contents` for these
/// arguments.
#[verifier::external_body]
fn read_zip_entry(archive: &[u8], name: &str) -> (r: Result<Vec<u8>, ZipReadError>)
    ensures
        match r {
            Ok(data) => {
                &&& zip_archive_readable(archive@)
                &&& zip_entry_found(archive@, name@)
                &&& zip_entry_contents(archive@, name@) == Some(data@)
            },
            Err(ZipReadError::Archive(_)) => !zip_archive_readable(archive@),
            Err(ZipReadError::Entry(_)) => {
                &&& zip_archive_readable(archive@)
                &&& !zip_entry_found(archive@, name@)
            },
            Err(ZipReadError::Read(_)) => {
                &&& zip_archive_readable(archive@)
                &&& zip_entry_found(archive@, name@)
                &&& zip_entry_contents(archive@, name@) is None
            },
        },
{
    let mut zip = match zip::ZipArchive::new(std::io::Cursor::new(archive)) {
        Ok(z) => z,
        Err(e) => return Err(ZipReadError::Archive(e)),
    };
    let mut entry = match zip.by_name(name) {
        Ok(f) => f,
        Err(e) => return Err(ZipReadError::Entry(e)),
    };
    let mut data = Vec::new();
    match std::io::Read::read_to_end(&mut entry, &mut data) {
        Ok(_) => Ok(data),
        Err(e) => Err(ZipReadError::Read(e)),
    }
}

/// Where the Wintun release archive is downloaded from.
pub fn wintun_url() -> (r: &'static str)
    ensures
        r@ == "https://www.wintun.net/builds/wintun-0.14.1.zip"@,
{
    "https://www.wintun.net/builds/wintun-0.14.1.zip"
}

/// The file name of the driver library, in the archive and once installed.
pub fn wintun_dll_name() -> (r: &'static str)
    ensures
        r@ == "wintun.dll"@,
{
    "wintun.dll"
}

/// The path in the archive of the driver library built for `arch`.
pub open spec fn wintun_dll_path(arch: Arch) -> Seq<char> {
    "wintun/bin/"@ + arch.wintun_dir_text() + "/wintun.dll"@
}

pub fn wintun_inner_path(arch: Arch) -> (r: String)
    ensures
        r@ == wintun_dll_path(arch),
{
    String::from_str("wintun/bin/").concat(arch.wintun_dir()).concat("/wintun.dll")
}

/// Why the driver library could not be taken out of the archive.
#[derive(Debug)]
pub enum WintunError {
    /// The download is not a zip archive that can be read.
    UnreadableArchive(zip::result::ZipError),
    /// The archive has no library at `path` that can be opened.
    MissingDll { path: String, cause: zip::result::ZipError },
    /// The library was found but reading it failed.
    ReadFailed(std::io::Error),
}

/// The driver library for `arch` out of the downloaded Wintun archive.
pub fn extract_wintun_dll(archive: &[u8], arch: Arch) -> (r: Result<Vec<u8>, WintunError>)
    ensures
        match r {
            Ok(data) => {
                &&& zip_archive_readable(archive@)
                &&& zip_entry_found(archive@, wintun_dll_path(arch))
                &&& zip_entry_contents(archive@, wintun_dll_path(arch)) == Some(data@)
            },
            Err(WintunError::UnreadableArchive(_)) => !zip_archive_readable(archive@),
            Err(WintunError::MissingDll { path, .. }) => {
                &&& path@ == wintun_dll_path(arch)
                &&& zip_archive_readable(archive@)
                &&& !zip_entry_found(archive@, wintun_dll_path(arch))
            },
            Err(WintunError::ReadFailed(_)) => {
                &&& zip_archive_readable(archive@)
                &&& zip_entry_found(archive@, wintun_dll_path(arch))
                &&& zip_entry_contents(archive@, wintun_dll_path(arch)) is None
            },
        },
{
    let path = wintun_inner_path(arch);
    match read_zip_entry(archive, path.as_str()) {
        Ok(data) => Ok(data),
        Err(ZipReadError::Archive(e)) => Err(WintunError::UnreadableArchive(e)),
        Err(ZipReadError::Entry(e)) => Err(WintunError::MissingDll { path, cause: e }),
        Err(ZipReadError::Read(e)) => Err(WintunError::ReadFailed(e)),
    }
}

} // verus!
