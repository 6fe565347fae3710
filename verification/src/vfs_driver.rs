//! The capability contract every file-system backend satisfies.

use vstd::prelude::*;

use crate::progress::ProgressSender;
use crate::VfsError;

verus! {

/// Classification of a path inside a driver's source.
#[derive(Clone, Copy, PartialEq, Eq, Structural, Debug)]
pub enum EntryType {
    File,
    Directory,
    NotFound,
}

/// File system implementations must implement this trait.
///
/// A value of an implementing type is either a *template* (uninstantiated,
/// used as a factory and as a decompressor probe) or an *instance* bound to
/// a concrete source. Instances are immutable once created; cloning shares
/// or copies that fixed state.
pub trait VfsDriver: Sized + Clone {
    /// Classifies a driver-relative path inside this driver's source.
    /// Must be cheaper than a full read.
    fn has_entry(&self, path: &str) -> EntryType;

    /// Content-based probe: whether a short prefix of a blob looks like
    /// something this driver can open.
    fn can_decompress(&self, data: &[u8]) -> bool;

    /// Whether this template recognizes the file name (typically by suffix)
    /// as something it could mount or decompress.
    fn supports_file_ext(&self, file_ext: &str) -> bool;

    /// Cheap classifier: whether this template can mount `source` under
    /// `target`. Must not perform network I/O.
    fn can_mount(&self, target: &str, source: &str) -> Result<(), VfsError>;

    /// Canonicalize a source locator for this driver: an empty local path
    /// becomes the current directory, a local path becomes absolute, a URL
    /// is used as-is.
    fn canonicalize_source(&self, source: &str) -> Result<String, VfsError>;

    /// Returns a new instance bound to `path`. Must at most record the
    /// locator; it must not open connections or file handles.
    fn new_from_path(&self, path: &str) -> Result<Self, VfsError>;

    /// Returns a new instance bound to an in-memory blob, for drivers that
    /// can act as decompressors; others return an error and are skipped by
    /// driver selection.
    fn new_from_blob(&self, data: Vec<u8>) -> Result<Self, VfsError>;

    /// Reads the entire entry at `path` into a new byte buffer, emitting
    /// non-decreasing progress fractions on `progress` along the way. The
    /// terminal message is the load engine's responsibility, and the sink
    /// can emit no terminal.
    fn load_file(&self, path: &str, progress: &mut ProgressSender) -> Result<Vec<u8>, VfsError>;
}

} // verus!
