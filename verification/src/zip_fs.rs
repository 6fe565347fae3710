//! Archive driver state and the archive operations on in-memory blobs.
//! An instance is bound either to an archive file on disk (whose bytes the
//! host application reads) or to an in-memory blob produced by an outer
//! driver during a nested load; the blob-bound operations live here and go
//! through the `zip` crate.

use vstd::prelude::*;
use vstd::string::*;

use crate::progress::ProgressSender;
use crate::vfs_driver::EntryType;
use crate::VfsError;

verus! {

/// `p` ends in the recognized archive suffix `.zip`.
pub open spec fn ends_with_zip(p: Seq<char>) -> bool {
    p.len() >= 4 && p.subrange(p.len() - 4, p.len() as int) == ".zip"@
}

/// Whether `p` ends in `.zip`.
pub fn has_zip_suffix(p: &str) -> (r: bool)
    ensures
        r == ends_with_zip(p@),
{
    let n: usize = p.unicode_len();
    if n < 4 {
        return false;
    }
    let r = p.get_char(n - 4) == '.' && p.get_char(n - 3) == 'z' && p.get_char(n - 2) == 'i'
        && p.get_char(n - 1) == 'p';
    proof {
        reveal_strlit(".zip");
        let s = p@.subrange(p@.len() - 4, p@.len() as int);
        assert(s.len() == 4 && s[0] == p@[p@.len() - 4] && s[1] == p@[p@.len() - 3] && s[2]
            == p@[p@.len() - 2] && s[3] == p@[p@.len() - 1]);
        if s[0] == '.' && s[1] == 'z' && s[2] == 'i' && s[3] == 'p' {
            assert(s =~= ".zip"@);
        } else {
            assert(s != ".zip"@);
        }
    }
    r
}

/// What the archive's central directory holds under this name: whether an
/// entry of this exact name exists in the archive bytes.
pub uninterp spec fn zip_has_entry_of(blob: Seq<u8>, name: Seq<char>) -> bool;

/// The contents of the named entry of the archive bytes, if the entry can
/// be found and decompressed.
pub uninterp spec fn zip_entry_of(blob: Seq<u8>, name: Seq<char>) -> Option<Seq<u8>>;

/// Relies on zip::ZipArchive::{new, index_for_name}: whether the central
/// directory of an archive given as bytes holds an entry of this name is a
/// function of the bytes and the name alone. Unreadable bytes hold no entry.
#[verifier::external_body]
fn zip_blob_has_entry(blob: &Vec<u8>, name: &str) -> (r: bool)
    ensures
        r == zip_has_entry_of(blob@, name@),
{
    match zip::ZipArchive::new(std::io::Cursor::new(blob.as_slice())) {
        Ok(archive) => archive.index_for_name(name).is_some(),
        Err(_) => false,
    }
}

/// Relies on zip::ZipArchive::{new, by_name} and Read::read_to_end: the
/// decompressed contents of the named entry are a function of the archive
/// bytes and the name alone; `None` when the entry cannot be found or read.
#[verifier::external_body]
fn zip_blob_read_entry(blob: &Vec<u8>, name: &str) -> (r: Option<Vec<u8>>)
    ensures
        r matches Some(d) ==> zip_entry_of(blob@, name@) == Some(d@),
        r is None <==> zip_entry_of(blob@, name@) is None,
{
    let mut archive = zip::ZipArchive::new(std::io::Cursor::new(blob.as_slice())).ok()?;
    let mut file = archive.by_name(name).ok()?;
    let mut data = Vec::new();
    std::io::Read::read_to_end(&mut file, &mut data).ok()?;
    Some(data)
}

/// A driver template or an instance bound to an archive: by file name, or
/// by the archive's bytes when the archive was itself produced by an outer
/// driver.
#[derive(Clone)]
pub struct ZipFs {
    filename: String,
    blob: Option<Vec<u8>>,
}

impl ZipFs {
    /// The archive file this instance reads, when bound by name.
    pub closed spec fn filename_view(self) -> Seq<char> {
        self.filename@
    }

    /// The archive bytes this instance reads, when bound to a blob.
    pub closed spec fn blob_view(self) -> Option<Seq<u8>> {
        match self.blob {
            Some(b) => Some(b@),
            None => None,
        }
    }

    /// An uninstantiated template.
    pub fn new() -> (r: ZipFs)
        ensures
            r.filename_view() =~= Seq::<char>::empty(),
            r.blob_view() is None,
    {
        ZipFs { filename: String::new(), blob: None }
    }

    /// An instance bound to the archive file named `filename`.
    pub fn new_from_path(&self, filename: &str) -> (r: ZipFs)
        ensures
            r.filename_view() == filename@,
            r.blob_view() is None,
    {
        ZipFs { filename: filename.to_owned(), blob: None }
    }

    /// An instance bound to in-memory archive bytes.
    pub fn new_from_blob(&self, data: Vec<u8>) -> (r: ZipFs)
        ensures
            r.blob_view() == Some(data@),
    {
        ZipFs { filename: String::new(), blob: Some(data) }
    }

    /// The archive file this instance reads, when bound by name.
    pub fn archive_path(&self) -> (r: &String)
        ensures
            r@ == self.filename_view(),
    {
        &self.filename
    }

    /// Whether this instance is bound to in-memory archive bytes, as the
    /// blob-bound operations require.
    pub fn is_blob_bound(&self) -> (r: bool)
        ensures
            r == (self.blob_view() is Some),
    {
        self.blob.is_some()
    }

    /// The archive-side part of the mount classifier: a source can be
    /// mounted only if it names an existing regular file with the archive
    /// suffix. Whether the source exists and whether it is a regular file
    /// are the host's part and come in as `exists` and `is_file`: a
    /// missing source is an I/O failure, an unsuitable one a rejection of
    /// the pair.
    pub fn mount_decision(source: &str, exists: bool, is_file: bool) -> (r: Result<(), VfsError>)
        ensures
            r is Ok <==> (exists && is_file && ends_with_zip(source@)),
            !exists ==> (r matches Err(e) && e matches VfsError::FileError { .. }),
            exists && !(is_file && ends_with_zip(source@)) ==> (r matches Err(e) && (e
                matches VfsError::UnsupportedMount { mount } && mount@ == source@)),
    {
        if !exists {
            Err(VfsError::FileError { detail: "source cannot be inspected".to_owned() })
        } else if is_file && has_zip_suffix(source) {
            Ok(())
        } else {
            Err(VfsError::UnsupportedMount { mount: source.to_owned() })
        }
    }

    /// Classify a path inside blob-bound archive bytes: `File` exactly when
    /// the central directory holds the name, never a directory.
    pub fn has_entry(&self, path: &str) -> (r: EntryType)
        requires
            self.blob_view() is Some,
        ensures
            r == EntryType::File <==> zip_has_entry_of(self.blob_view().unwrap(), path@),
            r != EntryType::Directory,
    {
        match &self.blob {
            Some(b) => {
                if zip_blob_has_entry(b, path) {
                    EntryType::File
                } else {
                    EntryType::NotFound
                }
            },
            None => EntryType::NotFound,
        }
    }

    /// Read an entire entry out of blob-bound archive bytes. An in-memory
    /// read is one pass, so the call emits the one zero progress mark
    /// before it and nothing else; if the stream already stands past zero
    /// the mark is dropped by the endpoint's monotony.
    pub fn load_file(&self, path: &str, progress: &mut ProgressSender) -> (r: Result<
        Vec<u8>,
        VfsError,
    >)
        requires
            self.blob_view() is Some,
        ensures
            r matches Ok(d) ==> zip_entry_of(self.blob_view().unwrap(), path@) == Some(d@),
            r is Err <==> zip_entry_of(self.blob_view().unwrap(), path@) is None,
            r matches Err(e) ==> e matches VfsError::FileError { .. },
            old(progress).last_pct() == 0 ==> (final(progress).history()
                =~= old(progress).history().push(crate::RecvMsg::ReadProgress(0u32))
                && final(progress).last_pct() == 0),
            old(progress).last_pct() > 0 ==> (final(progress).history() == old(
                progress,
            ).history() && final(progress).last_pct() == old(progress).last_pct()),
    {
        let _ = progress.send_progress(0);
        match &self.blob {
            Some(b) => {
                match zip_blob_read_entry(b, path) {
                    Some(data) => Ok(data),
                    None => Err(
                        VfsError::FileError {
                            detail: "archive entry cannot be read".to_owned(),
                        },
                    ),
                }
            },
            None => Err(VfsError::FileError { detail: "archive is not bound".to_owned() }),
        }
    }

    /// An archive driver is selected as a decompressor by its suffix.
    pub fn supports_file_ext(&self, file_ext: &str) -> (r: bool)
        ensures
            r == ends_with_zip(file_ext@),
    {
        has_zip_suffix(file_ext)
    }

    /// Content probes are not used by this archive driver; selection goes
    /// by suffix.
    pub fn can_decompress(&self, _data: &[u8]) -> (r: bool)
        ensures
            r == false,
    {
        false
    }
}

} // verus!
