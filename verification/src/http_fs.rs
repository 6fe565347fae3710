//! Remote driver state: a driver bound to an HTTP(S) endpoint. The network
//! read itself lives with the host application; this module holds the
//! classifiers, which are pure.

use vstd::prelude::*;
use vstd::string::*;

use crate::path_util::str_starts_with;
use crate::vfs_driver::EntryType;
use crate::VfsError;

verus! {

/// `s` begins with one of the recognized URL schemes.
pub open spec fn is_remote_url(s: Seq<char>) -> bool {
    "http://"@.is_prefix_of(s) || "https://"@.is_prefix_of(s)
}

/// A driver template or instance for HTTP(S) sources; an instance records
/// the URL it was bound to.
#[derive(Clone)]
pub struct HttpFs {
    url: String,
}

impl HttpFs {
    /// The URL this instance is bound to; empty for a template.
    pub closed spec fn url_view(self) -> Seq<char> {
        self.url@
    }

    /// An uninstantiated template.
    pub fn new() -> (r: HttpFs)
        ensures
            r.url_view() =~= Seq::<char>::empty(),
    {
        HttpFs { url: String::new() }
    }

    /// An instance bound to `url`.
    pub fn new_from_path(&self, url: &str) -> (r: HttpFs)
        ensures
            r.url_view() == url@,
    {
        HttpFs { url: url.to_owned() }
    }

    /// The URL this instance is bound to.
    pub fn url(&self) -> (r: &String)
        ensures
            r@ == self.url_view(),
    {
        &self.url
    }

    /// A remote driver reads over the network rather than from the host's
    /// disk.
    pub fn is_remote(&self) -> (r: bool)
        ensures
            r == true,
    {
        true
    }

    /// A remote source can be mounted exactly when it names a recognized
    /// URL scheme.
    pub fn can_mount(&self, _target: &str, source: &str) -> (r: Result<(), VfsError>)
        ensures
            r is Ok <==> is_remote_url(source@),
            r matches Err(e) ==> e matches VfsError::UnsupportedMount { mount } && mount@
                == source@,
    {
        if str_starts_with(source, "http://") || str_starts_with(source, "https://") {
            Ok(())
        } else {
            Err(VfsError::UnsupportedMount { mount: source.to_owned() })
        }
    }

    /// A URL is used as a source locator as-is.
    pub fn canonicalize_source(&self, source: &str) -> (r: String)
        ensures
            r@ == source@,
    {
        source.to_owned()
    }

    /// Probing a remote entry is expensive, so a remote source reports
    /// `File` without probing.
    pub fn has_entry(&self, _path: &str) -> (r: EntryType)
        ensures
            r == EntryType::File,
    {
        EntryType::File
    }

    /// A remote driver is no decompressor.
    pub fn can_decompress(&self, _data: &[u8]) -> (r: bool)
        ensures
            r == false,
    {
        false
    }

    /// A remote template recognizes archive-like names.
    pub fn supports_file_ext(&self, file_ext: &str) -> (r: bool)
        ensures
            r == crate::zip_fs::ends_with_zip(file_ext@),
    {
        crate::zip_fs::has_zip_suffix(file_ext)
    }
}

} // verus!
