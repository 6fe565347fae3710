//! An embedded virtual file system: heterogeneous data sources are mounted
//! under a unified path namespace and files are loaded from them, descending
//! into nested containers while streaming progress to the caller.
//!
//! The facade snapshots the mount table and driver registry into each request,
//! a worker resolves the owning mount and walks nested containers, and the
//! caller observes the request on a receive-only [`Handle`]: zero or more
//! progress messages followed by exactly one terminal message.

pub mod engine;
pub mod http_fs;
pub mod local_fs;
pub mod path_util;
pub mod progress;
pub mod vfs_driver;
pub mod zip_fs;

use vstd::prelude::*;

verus! {

pub use crate::vfs_driver::EntryType;
pub use crate::vfs_driver::VfsDriver;
pub use crate::http_fs::HttpFs;
pub use crate::local_fs::LocalFs;
pub use crate::zip_fs::ZipFs;

use crate::path_util::starts_with_slash;

/// Why a mount or a load failed.
#[derive(Clone, Debug)]
pub enum VfsError {
    /// The mount target does not begin with `/`.
    InvalidRootPath { path: String },
    /// A specific driver rejected this `(target, source)` pair.
    UnsupportedMount { mount: String },
    /// No registered driver accepted the source.
    NoDriverSupport,
    /// No mount owns the requested path.
    InvalidMount { path: String },
    /// Resolution exhausted every prefix without finding an entry.
    PathNotFound { path: String },
    /// Resolution terminated on a directory instead of a file.
    NotFile { path: String },
    /// A container was reached but no driver can open it, or nesting ran
    /// past the depth bound.
    DecompressorNotFound { path: String },
    /// An I/O failure reported by a driver.
    FileError { detail: String },
}

impl VfsError {
    /// Normalize a driver-reported load failure to the file-error kind,
    /// which wraps the underlying cause: a file error passes through
    /// unchanged, any other kind a driver improvises is wrapped with its
    /// text.
    pub fn into_file_error(self) -> (r: VfsError)
        ensures
            r matches VfsError::FileError { .. },
            self matches VfsError::FileError { .. } ==> r == self,
    {
        match self {
            VfsError::FileError { detail } => VfsError::FileError { detail },
            VfsError::InvalidRootPath { path } => VfsError::FileError { detail: path },
            VfsError::UnsupportedMount { mount } => VfsError::FileError { detail: mount },
            VfsError::NoDriverSupport => VfsError::FileError {
                detail: "driver failure".to_owned(),
            },
            VfsError::InvalidMount { path } => VfsError::FileError { detail: path },
            VfsError::PathNotFound { path } => VfsError::FileError { detail: path },
            VfsError::NotFile { path } => VfsError::FileError { detail: path },
            VfsError::DecompressorNotFound { path } => VfsError::FileError { detail: path },
        }
    }

    /// Normalize a driver-reported mount failure to the two kinds a driver
    /// may give a mount: its rejection of the pair, or an I/O failure.
    /// Those two pass through unchanged; anything else is wrapped as a
    /// file error with its text.
    pub fn into_mount_error(self) -> (r: VfsError)
        ensures
            (r matches VfsError::UnsupportedMount { .. }) || (r
                matches VfsError::FileError { .. }),
            self matches VfsError::UnsupportedMount { .. } ==> r == self,
            self matches VfsError::FileError { .. } ==> r == self,
    {
        match self {
            VfsError::UnsupportedMount { mount } => VfsError::UnsupportedMount { mount },
            other => other.into_file_error(),
        }
    }
}

/// One message on a request's result channel.
#[derive(Debug)]
pub enum RecvMsg {
    /// Completed fraction of the current read, scaled to a percentage.
    ReadProgress(u32),
    /// The entire file contents; the terminal message of a successful load.
    ReadDone(Vec<u8>),
    /// The terminal message of a failed load.
    Error(VfsError),
}

/// A binding of a virtual `target` path to an external `source` through a
/// driver instance bound to that source.
pub struct Mount<D> {
    pub target: String,
    pub source: String,
    pub driver: D,
}

impl<D: VfsDriver> Clone for Mount<D> {
    /// Mounts are snapshotted into requests by cloning; the paths are
    /// preserved exactly.
    fn clone(&self) -> (r: Self)
        ensures
            r.target@ == self.target@,
            r.source@ == self.source@,
    {
        Mount {
            target: self.target.clone(),
            source: self.source.clone(),
            driver: self.driver.clone(),
        }
    }
}

/// A work item for the dispatcher: the path to load together with the
/// request's own snapshot of the mount table and driver registry, and the
/// send side of its result channel.
pub enum SendMsg<D> {
    LoadFile(String, Vec<Mount<D>>, Vec<D>, crossbeam_channel::Sender<RecvMsg>),
}

/// A caller-held receive endpoint over a single request's message stream.
pub struct Handle {
    pub recv: crossbeam_channel::Receiver<RecvMsg>,
}

/// The facade: registered driver templates, the ordered mount table, and the
/// send side of the dispatcher channel.
#[verifier::reject_recursive_types(D)]
pub struct Evfs<D> {
    drivers: Vec<D>,
    pub mounts: Vec<Mount<D>>,
    main_send: crossbeam_channel::Sender<SendMsg<D>>,
}

impl<D: VfsDriver> Evfs<D> {
    /// Spec view of the registered driver templates.
    pub closed spec fn drivers_view(self) -> Seq<D> {
        self.drivers@
    }

    /// Spec view of the mount table, in registration order.
    pub closed spec fn mounts_view(self) -> Seq<Mount<D>> {
        self.mounts@
    }

    /// Construct a facade over an already-created dispatcher channel, with
    /// the given built-in driver templates. The caller keeps the receive
    /// side and runs the dispatcher on it.
    pub fn new(main_send: crossbeam_channel::Sender<SendMsg<D>>, drivers: Vec<D>) -> (r: Evfs<D>)
        ensures
            r.mounts_view() =~= Seq::<Mount<D>>::empty(),
            r.drivers_view() == drivers@,
    {
        Evfs { drivers, mounts: Vec::new(), main_send }
    }

    /// Append a driver template to the registry; templates are consulted in
    /// registration order.
    pub fn install_driver(&mut self, driver: D)
        ensures
            final(self).drivers_view() =~= old(self).drivers_view().push(driver),
            final(self).mounts_view() == old(self).mounts_view(),
    {
        self.drivers.push(driver);
    }

    /// Mount a path in the virtual file system: the first registered
    /// driver template accepting the `(target, source)` pair wins, the
    /// source is canonicalized by that driver, and a bound instance is
    /// appended to the mount table. Existing mounts are never touched, so
    /// a later mount of the same target overlays the earlier one.
    pub fn mount(&mut self, target: &str, source: &str) -> (r: Result<(), VfsError>)
        ensures
            final(self).drivers_view() == old(self).drivers_view(),
            !starts_with_slash(target@) ==> (r matches Err(e) && (e
                matches VfsError::InvalidRootPath { path } && path@ == target@)),
            r is Ok ==> final(self).mounts_view().len() == old(self).mounts_view().len() + 1
                && final(self).mounts_view().subrange(
                0,
                old(self).mounts_view().len() as int,
            ) =~= old(self).mounts_view() && final(self).mounts_view().last().target@
                == target@,
            r is Err ==> final(self).mounts_view() == old(self).mounts_view(),
            old(self).drivers_view().len() == 0 && starts_with_slash(target@) ==> (r
                matches Err(e) && e matches VfsError::NoDriverSupport),
            r matches Err(e) ==> ((e matches VfsError::InvalidRootPath { .. }) || (e
                matches VfsError::UnsupportedMount { .. }) || (e
                matches VfsError::NoDriverSupport) || (e matches VfsError::FileError { .. })),
            r matches Err(VfsError::InvalidRootPath { .. }) ==> !starts_with_slash(target@),
    {
        let target_len: usize = target.unicode_len();
        if target_len == 0 || target.get_char(0) != '/' {
            return Err(VfsError::InvalidRootPath { path: target.to_owned() });
        }
        let n: usize = self.drivers.len();
        let mut i: usize = 0;
        while i < n
            invariant
                n == self.drivers@.len(),
                i <= n,
                starts_with_slash(target@),
                self.mounts@ == old(self).mounts@,
                self.drivers@ == old(self).drivers@,
            decreases n - i,
        {
            if self.drivers[i].can_mount(target, source).is_ok() {
                let canonical = match self.drivers[i].canonicalize_source(source) {
                    Ok(c) => c,
                    Err(e) => {
                        return Err(e.into_mount_error());
                    },
                };
                let instance = match self.drivers[i].new_from_path(canonical.as_str()) {
                    Ok(d) => d,
                    Err(e) => {
                        return Err(e.into_mount_error());
                    },
                };
                self.mounts.push(
                    Mount { target: target.to_owned(), source: canonical, driver: instance },
                );
                return Ok(());
            }
            i = i + 1;
        }
        Err(VfsError::NoDriverSupport)
    }

    /// Enqueue a load of `path` and hand back the receive side of its
    /// result channel. This never fails synchronously: failures surface as
    /// an `Error` message on the handle. The request carries its own
    /// snapshot of the mount table and driver registry, so later `mount`
    /// or `install_driver` calls cannot affect its outcome.
    pub fn load_file(&self, path: &str) -> Handle {
        let mounts = snapshot_mounts(&self.mounts);
        let drivers = snapshot_drivers(&self.drivers);
        let (request_send, request_recv) = crossbeam_channel::unbounded();
        let _ = self.main_send.send(
            SendMsg::LoadFile(path.to_owned(), mounts, drivers, request_send),
        );
        Handle { recv: request_recv }
    }
}

/// Snapshot a mount table for a request: target and source paths are
/// preserved exactly, and each driver instance is cloned.
fn snapshot_mounts<D: VfsDriver>(mounts: &Vec<Mount<D>>) -> (r: Vec<Mount<D>>)
    ensures
        r@.len() == mounts@.len(),
        forall|i: int|
            0 <= i < mounts@.len() ==> (#[trigger] r@[i]).target@ == mounts@[i].target@
                && r@[i].source@ == mounts@[i].source@,
{
    let n: usize = mounts.len();
    let mut r: Vec<Mount<D>> = Vec::new();
    let mut i: usize = 0;
    while i < n
        invariant
            n == mounts@.len(),
            i <= n,
            r@.len() == i,
            forall|k: int|
                0 <= k < i ==> (#[trigger] r@[k]).target@ == mounts@[k].target@ && r@[k].source@
                    == mounts@[k].source@,
        decreases n - i,
    {
        r.push(mounts[i].clone());
        i = i + 1;
    }
    r
}

/// Snapshot a driver registry for a request.
fn snapshot_drivers<D: VfsDriver>(drivers: &Vec<D>) -> (r: Vec<D>)
    ensures
        r@.len() == drivers@.len(),
{
    let n: usize = drivers.len();
    let mut r: Vec<D> = Vec::new();
    let mut i: usize = 0;
    while i < n
        invariant
            n == drivers@.len(),
            i <= n,
            r@.len() == i,
        decreases n - i,
    {
        r.push(drivers[i].clone());
        i = i + 1;
    }
    r
}

} // verus!
