//! The load engine: initial-mount lookup over the snapshot, the prefix walk
//! that finds the entry a driver owns, decompressor selection, and the
//! nested-container loop that drives a request to its one terminal message.

use vstd::prelude::*;
use vstd::string::*;

use crate::path_util::{
    boundary_at, mount_matches, mount_matches_exec, mount_suffix, prev_boundary, str_char_len,
};
use crate::progress::{valid_trace, ProgressSender};
use crate::vfs_driver::{EntryType, VfsDriver};
use crate::{Mount, RecvMsg, SendMsg, VfsError};

verus! {

/// The most deeply nested containers one load will descend into before it
/// gives up; past it the path is treated as unresolvable.
pub const MAX_NESTING_DEPTH: usize = 100;

/// The targets of a mount table, in registration order.
pub open spec fn mount_targets<D>(mounts: Seq<Mount<D>>) -> Seq<Seq<char>> {
    mounts.map_values(|m: Mount<D>| m.target@)
}

/// Mount `i` owns `path`.
pub open spec fn owns<D>(mounts: Seq<Mount<D>>, path: Seq<char>, i: int) -> bool {
    0 <= i < mounts.len() && mount_matches(mount_targets(mounts)[i], path)
}

/// Which mount a load of `path` uses: among the mounts owning `path`, one
/// with the longest target wins, and of equal targets the most recently
/// registered wins (overlay semantics).
pub open spec fn chosen_mount<D>(mounts: Seq<Mount<D>>, path: Seq<char>, i: int) -> bool {
    &&& owns(mounts, path, i)
    &&& forall|j: int|
        owns(mounts, path, j) ==> (mount_targets(mounts)[j].len() < mount_targets(mounts)[
            i
        ].len() || (mount_targets(mounts)[j].len() == mount_targets(mounts)[i].len() && j <= i))
}

/// Find the initial mount point for a file: the owning mount of `path`
/// under overlay semantics, or `None` when no mount owns it.
pub fn get_initial_mount<D: VfsDriver>(path: &str, mounts: &Vec<Mount<D>>) -> (r: Option<usize>)
    ensures
        match r {
            Some(i) => chosen_mount(mounts@, path@, i as int),
            None => forall|j: int| !owns(mounts@, path@, j),
        },
{
    let n: usize = mounts.len();
    let mut best: Option<usize> = None;
    let mut i: usize = 0;
    while i < n
        invariant
            n == mounts@.len(),
            0 <= i <= n,
            match best {
                Some(b) => b < i && owns(mounts@, path@, b as int) && forall|j: int|
                    0 <= j < i && owns(mounts@, path@, j) ==> (mount_targets(mounts@)[j].len()
                        < mount_targets(mounts@)[b as int].len() || (mount_targets(
                        mounts@,
                    )[j].len() == mount_targets(mounts@)[b as int].len() && j <= b)),
                None => forall|j: int| 0 <= j < i ==> !owns(mounts@, path@, j),
            },
        decreases n - i,
    {
        if mount_matches_exec(mounts[i].target.as_str(), path) {
            let take = match best {
                Some(b) => {
                    let bl: usize = mounts[b].target.as_str().unicode_len();
                    let il: usize = mounts[i].target.as_str().unicode_len();
                    il >= bl
                },
                None => true,
            };
            if take {
                best = Some(i);
            }
        }
        i = i + 1;
    }
    best
}

/// *Idempotent resolution.* The owning mount of a path is determined by
/// the mount table: two resolutions of the same path against the same
/// table choose the same mount.
pub proof fn lemma_resolution_deterministic<D>(
    mounts: Seq<Mount<D>>,
    path: Seq<char>,
    i: int,
    j: int,
)
    requires
        chosen_mount(mounts, path, i),
        chosen_mount(mounts, path, j),
    ensures
        i == j,
{
    assert(owns(mounts, path, i));
    assert(owns(mounts, path, j));
}

/// *Overlay precedence.* When two mounts share the same target, a load can
/// never pick the earlier-registered of the two: the later mount shadows
/// it for every path.
pub proof fn lemma_overlay_precedence<D>(
    mounts: Seq<Mount<D>>,
    path: Seq<char>,
    i: int,
    j: int,
)
    requires
        0 <= i < j < mounts.len(),
        mounts[i].target@ == mounts[j].target@,
    ensures
        !chosen_mount(mounts, path, i),
{
    if chosen_mount(mounts, path, i) {
        assert(owns(mounts, path, j));
    }
}

/// *Overlay precedence*, the positive form: the most recently registered
/// of the longest mounts owning a path is the one a load of that path
/// uses.
pub proof fn lemma_overlay_later_wins<D>(mounts: Seq<Mount<D>>, path: Seq<char>, j: int)
    requires
        owns(mounts, path, j),
        forall|k: int|
            owns(mounts, path, k) ==> mount_targets(mounts)[k].len() <= mount_targets(
                mounts,
            )[j].len(),
        forall|k: int|
            owns(mounts, path, k) && mount_targets(mounts)[k].len() == mount_targets(
                mounts,
            )[j].len() ==> k <= j,
    ensures
        chosen_mount(mounts, path, j),
{
}

/// Find the entry a driver owns on the current suffix: the suffix itself
/// first, then ever-shorter prefixes cut at `/` boundaries; the first
/// answer other than `NotFound` wins. Returns the matched prefix length in
/// characters together with the answer.
pub fn find_entry<D: VfsDriver>(driver: &D, path: &str) -> (r: (usize, EntryType))
    ensures
        r.1 == EntryType::File || r.1 == EntryType::Directory ==> r.0 <= path@.len()
            && boundary_at(path@, r.0 as int),
        r.1 == EntryType::NotFound ==> r.0 == 0,
{
    let n: usize = str_char_len(path);
    let full = driver.has_entry(path);
    if full == EntryType::File || full == EntryType::Directory {
        return (n, full);
    }
    let mut i: usize = n;
    loop
        invariant
            i <= n,
            n == path@.len(),
        decreases i,
    {
        match prev_boundary(path, i) {
            Some(j) => {
                let prefix = path.substring_char(0, j);
                let e = driver.has_entry(prefix);
                if e == EntryType::File || e == EntryType::Directory {
                    return (j, e);
                }
                i = j;
            },
            None => {
                return (0, EntryType::NotFound);
            },
        }
    }
}

/// Driver selection for a nested container: walk the registry in
/// registration order; the first template that recognizes the container's
/// name by extension or its bytes by content wins and is returned bound to
/// the blob. The extension is consulted first. A template that cannot bind
/// to an in-memory blob is skipped silently. Which template answers is the
/// templates' own affair, so nothing further can be promised here.
pub fn find_driver<D: VfsDriver>(current_path: &str, file_data: &Vec<u8>, drivers: &Vec<D>) -> (r:
    Option<D>)
    ensures
        drivers@.len() == 0 ==> r is None,
{
    let n: usize = drivers.len();
    let mut i: usize = 0;
    while i < n
        invariant
            n == drivers@.len(),
            i <= n,
        decreases n - i,
    {
        let matched = drivers[i].supports_file_ext(current_path) || drivers[i].can_decompress(
            file_data.as_slice(),
        );
        if matched {
            match drivers[i].new_from_blob(file_data.clone()) {
                Ok(instance) => {
                    return Some(instance);
                },
                Err(_) => {},
            }
        }
        i = i + 1;
    }
    None
}

/// The failure kinds the walk itself decides, each carrying the request's
/// own path, or a driver's load failure normalized to the file-error kind.
pub open spec fn walk_error(e: VfsError, full_path: Seq<char>) -> bool {
    ||| (e matches VfsError::PathNotFound { path } && path@ == full_path)
    ||| (e matches VfsError::NotFile { path } && path@ == full_path)
    ||| (e matches VfsError::DecompressorNotFound { path } && path@ == full_path)
    ||| (e matches VfsError::FileError { .. })
}

/// Execute a resolved load: starting from the initial mount's driver and
/// the driver-relative suffix, find the entry the driver owns, read it,
/// and either hand the blob back (suffix consumed) or descend into it with
/// a freshly selected driver. At most `depth_budget` containers are
/// traversed; needing more makes the path unresolvable,
/// `DecompressorNotFound`. The second component counts the containers
/// traversed. Every failure is one of the walk's own kinds, carrying the
/// request's path, or a driver failure wrapped as `FileError`; the sink
/// takes progress messages alone, and the terminal message stays the
/// caller's to send. Which outcome occurs is the drivers' affair.
pub fn load_file<D: VfsDriver>(
    initial_driver: &D,
    suffix_in: &str,
    drivers: &Vec<D>,
    depth_budget: usize,
    sink: &mut ProgressSender,
    full_path: &str,
) -> (r: (Result<Vec<u8>, VfsError>, Ghost<nat>))
    ensures
        r.1@ <= depth_budget,
        r.0 is Ok ==> 1 <= r.1@,
        r.0 matches Err(e) ==> walk_error(e, full_path@),
        depth_budget == 0 ==> (r.0 matches Err(e) && (e
            matches VfsError::DecompressorNotFound { path } && path@ == full_path@)) && r.1@
            == 0,
        forall|i: int|
            0 <= i < final(sink).history().len() ==> crate::progress::is_progress(
                #[trigger] final(sink).history()[i],
            ),
{
    let mut driver: D = initial_driver.clone();
    let mut suffix: String = suffix_in.to_owned();
    let mut depth: usize = 0;
    while depth < depth_budget
        invariant
            depth <= depth_budget,
        decreases depth_budget - depth,
    {
        let (matched, entry) = find_entry(&driver, suffix.as_str());
        match entry {
            EntryType::NotFound => {
                sink.note_progress_only();
                return (
                    (Err(VfsError::PathNotFound { path: full_path.to_owned() }), Ghost(
                        depth as nat,
                    ))
                );
            },
            EntryType::Directory => {
                sink.note_progress_only();
                return (
                    (Err(VfsError::NotFile { path: full_path.to_owned() }), Ghost(depth as nat))
                );
            },
            EntryType::File => {},
        }
        let current = suffix.as_str().substring_char(0, matched);
        let blob = match driver.load_file(current, sink) {
            Ok(b) => b,
            Err(e) => {
                sink.note_progress_only();
                return ((Err(e.into_file_error()), Ghost((depth + 1) as nat)));
            },
        };
        let suffix_len: usize = suffix.as_str().unicode_len();
        if matched == suffix_len {
            sink.note_progress_only();
            return ((Ok(blob), Ghost((depth + 1) as nat)));
        }
        // the suffix goes on past the matched entry, so the blob is a
        // container: pick a driver that can open it, and consume the
        // separating `/`
        let rest = suffix.as_str().substring_char(matched + 1, suffix_len).to_owned();
        match find_driver(current, &blob, drivers) {
            Some(next_driver) => {
                driver = next_driver;
            },
            None => {
                sink.note_progress_only();
                return (
                    (Err(VfsError::DecompressorNotFound { path: full_path.to_owned() }), Ghost(
                        (depth + 1) as nat,
                    ))
                );
            },
        }
        suffix = rest;
        depth = depth + 1;
    }
    sink.note_progress_only();
    ((Err(VfsError::DecompressorNotFound { path: full_path.to_owned() }), Ghost(depth as nat)))
}

/// Process one dispatched request to its terminal message: resolve the
/// owning mount from the request's own snapshot, run the load on the
/// driver-relative suffix, and finish the result channel with exactly one
/// `ReadDone` or `Error`. The returned ghost trace is the request's whole
/// message stream: it is always well formed; a path no mount owns yields
/// the one message `Error(InvalidMount)`, and a path some mount owns
/// never yields that kind.
pub fn handle_msg<D: VfsDriver>(msg: SendMsg<D>) -> (t: Ghost<Seq<RecvMsg>>)
    ensures
        valid_trace(t@),
        msg matches SendMsg::LoadFile(path, mounts, drivers, sender) ==> ((forall|j: int|
            !owns(mounts@, path@, j)) ==> t@.len() == 1 && (t@.last() matches RecvMsg::Error(e)
            && (e matches VfsError::InvalidMount { path: p } && p@ == path@))),
        msg matches SendMsg::LoadFile(path, mounts, drivers, sender) ==> ((exists|j: int|
            owns(mounts@, path@, j)) ==> !(t@.last() matches RecvMsg::Error(e) && e
            matches VfsError::InvalidMount { .. })),
{
    match msg {
        SendMsg::LoadFile(path, mounts, drivers, sender) => {
            let mut sink = ProgressSender::new(sender);
            match get_initial_mount(path.as_str(), &mounts) {
                Some(index) => {
                    let suffix = mount_suffix(mounts[index].target.as_str(), path.as_str());
                    let (outcome, _containers) = load_file(
                        &mounts[index].driver,
                        suffix,
                        &drivers,
                        MAX_NESTING_DEPTH,
                        &mut sink,
                        path.as_str(),
                    );
                    match outcome {
                        Ok(data) => sink.finish(RecvMsg::ReadDone(data)),
                        Err(e) => sink.finish(RecvMsg::Error(e)),
                    }
                },
                None => sink.finish(RecvMsg::Error(VfsError::InvalidMount { path })),
            }
        },
    }
}

} // verus!
