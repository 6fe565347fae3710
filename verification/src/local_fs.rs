//! Local-directory driver state. The disk reads themselves live with the
//! host application; this module holds the classifiers and the chunked
//! read plan, which are pure.

use vstd::prelude::*;
use vstd::string::*;

use crate::VfsError;

verus! {

/// Reads at or above this many bytes are split into chunks with progress
/// marks between them; smaller reads happen in one pass.
pub const CHUNKED_READ_THRESHOLD: usize = 5242880;

/// How many chunks a large read is split into.
pub const READ_CHUNK_COUNT: usize = 10;

/// A driver template or instance for a host directory tree; an instance
/// records the root it was bound to.
#[derive(Clone)]
pub struct LocalFs {
    root: String,
}

impl LocalFs {
    /// The directory this instance reads under; empty for a template.
    pub closed spec fn root_view(self) -> Seq<char> {
        self.root@
    }

    /// An uninstantiated template.
    pub fn new() -> (r: LocalFs)
        ensures
            r.root_view() =~= Seq::<char>::empty(),
    {
        LocalFs { root: String::new() }
    }

    /// An instance bound to the directory `path`.
    pub fn new_from_path(&self, path: &str) -> (r: LocalFs)
        ensures
            r.root_view() == path@,
    {
        LocalFs { root: path.to_owned() }
    }

    /// The directory this instance reads under.
    pub fn root_path(&self) -> (r: &String)
        ensures
            r@ == self.root_view(),
    {
        &self.root
    }

    /// The decision half of the mount classifier: the empty source (the
    /// current directory) always mounts; otherwise the host looks the
    /// source up and reports whether it exists and whether it is a regular
    /// file, and a directory source mounts while a file is rejected.
    pub fn mount_decision(source: &str, exists: bool, is_file: bool) -> (r: Result<(), VfsError>)
        ensures
            r is Ok <==> (source@.len() == 0 || (exists && !is_file)),
            source@.len() > 0 && !exists ==> (r matches Err(e) && e
                matches VfsError::FileError { .. }),
            source@.len() > 0 && exists && is_file ==> (r matches Err(e) && (e
                matches VfsError::UnsupportedMount { mount } && mount@ == source@)),
    {
        if source.unicode_len() == 0 {
            Ok(())
        } else if !exists {
            Err(VfsError::FileError { detail: "source cannot be inspected".to_owned() })
        } else if is_file {
            Err(VfsError::UnsupportedMount { mount: source.to_owned() })
        } else {
            Ok(())
        }
    }

    /// A local directory is no decompressor.
    pub fn can_decompress(&self, _data: &[u8]) -> (r: bool)
        ensures
            r == false,
    {
        false
    }

    /// A directory holds files of every name, so a local template is the
    /// universal fallback for extension matches.
    pub fn supports_file_ext(&self, _file_ext: &str) -> (r: bool)
        ensures
            r == true,
    {
        true
    }
}

/// One step of a chunked read: read `amount` bytes at `offset`, then mark
/// `pct` percent complete.
pub struct ReadChunk {
    pub offset: usize,
    pub amount: usize,
    pub pct: u32,
}

/// The chunks of `plan` split `[0, len)` without gap or overlap and carry
/// non-decreasing percentages within the unit interval.
pub open spec fn chunks_cover(plan: Seq<ReadChunk>, len: usize) -> bool {
    &&& forall|i: int|
        0 <= i < plan.len() ==> (#[trigger] plan[i]).offset + plan[i].amount <= len
    &&& forall|i: int|
        0 <= i < plan.len() - 1 ==> (#[trigger] plan[i]).offset + plan[i].amount == plan[
            i + 1
        ].offset
    &&& forall|i: int| 0 <= i < plan.len() ==> (#[trigger] plan[i]).pct <= 100
    &&& forall|i: int|
        0 <= i < plan.len() - 1 ==> (#[trigger] plan[i]).pct <= plan[i + 1].pct
    &&& (plan.len() > 0 ==> plan[0].offset == 0 && plan.last().offset + plan.last().amount
        == len)
    &&& (plan.len() == 0 <==> len == 0)
}

/// The read plan for a file of `len` bytes: one whole-file chunk below the
/// chunking threshold, else the read split into `READ_CHUNK_COUNT` parts
/// of equal size, the last padded with the remainder.
pub fn read_plan(len: usize) -> (plan: Vec<ReadChunk>)
    ensures
        chunks_cover(plan@, len),
        0 < len < CHUNKED_READ_THRESHOLD ==> plan@.len() == 1 && plan@[0].pct == 0,
        len >= CHUNKED_READ_THRESHOLD ==> plan@.len() == READ_CHUNK_COUNT && (forall|k: int|
            0 <= k < plan@.len() ==> (#[trigger] plan@[k]).pct == k * READ_CHUNK_COUNT),
{
    let mut plan: Vec<ReadChunk> = Vec::new();
    if len == 0 {
        return plan;
    }
    if len < CHUNKED_READ_THRESHOLD {
        plan.push(ReadChunk { offset: 0, amount: len, pct: 0 });
        return plan;
    }
    let block: usize = len / READ_CHUNK_COUNT;
    let mut i: usize = 0;
    let mut covered: usize = 0;
    while i < READ_CHUNK_COUNT
        invariant
            len >= CHUNKED_READ_THRESHOLD,
            block == len as int / READ_CHUNK_COUNT as int,
            0 <= i <= READ_CHUNK_COUNT,
            plan@.len() == i,
            covered <= len,
            i == 0 ==> covered == 0,
            i < READ_CHUNK_COUNT ==> covered == i * block,
            i == READ_CHUNK_COUNT ==> covered == len,
            i > 0 ==> plan@[0].offset == 0,
            i > 0 ==> plan@.last().offset + plan@.last().amount == covered,
            forall|k: int|
                0 <= k < i ==> (#[trigger] plan@[k]).offset + plan@[k].amount <= len,
            forall|k: int|
                0 <= k < i - 1 ==> (#[trigger] plan@[k]).offset + plan@[k].amount == plan@[
                    k + 1
                ].offset,
            forall|k: int|
                0 <= k < i ==> (#[trigger] plan@[k]).pct == k * READ_CHUNK_COUNT,
        decreases READ_CHUNK_COUNT - i,
    {
        proof {
            lemma_block_bounds(len, block as int, i as int);
        }
        let amount: usize = if i == READ_CHUNK_COUNT - 1 {
            len - covered
        } else {
            block
        };
        plan.push(ReadChunk { offset: covered, amount, pct: (i * READ_CHUNK_COUNT) as u32 });
        covered = covered + amount;
        i = i + 1;
    }
    proof {
        assert forall|k: int| 0 <= k < plan@.len() implies (#[trigger] plan@[k]).pct
            <= 100 by {
            assert(plan@[k].pct == k * READ_CHUNK_COUNT);
        }
        assert(chunks_cover(plan@, len));
    }
    plan
}

proof fn lemma_block_bounds(len: usize, block: int, i: int)
    requires
        len >= 1,
        block == len as int / READ_CHUNK_COUNT as int,
        0 <= i < READ_CHUNK_COUNT,
    ensures
        i * block <= len,
        i * block + block <= len,
        (i + 1) * block == i * block + block,
{
    assert(READ_CHUNK_COUNT * block <= len) by {
        vstd::arithmetic::div_mod::lemma_fundamental_div_mod(len as int, READ_CHUNK_COUNT as int);
    };
    assert((i + 1) * block == i * block + block) by (nonlinear_arith);
    assert(block >= 0);
    assert((i + 1) * block <= READ_CHUNK_COUNT * block) by (nonlinear_arith)
        requires
            0 <= i + 1 <= READ_CHUNK_COUNT,
            block >= 0,
    ;
    assert(i * block >= 0) by (nonlinear_arith)
        requires
            0 <= i,
            block >= 0,
    ;
}

} // verus!
