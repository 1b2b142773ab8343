//! Secure-erasure planning: the fixed three-pass overwrite scheme.
//!
//! The planner decides, from a target's observed state, whether a secure
//! delete may proceed and whether any overwrite passes are needed; the
//! `PassWriter` produces the byte chunks of one overwrite pass and proves
//! that a completed fixed-pattern pass consists of that pattern alone.

use vstd::prelude::*;

verus! {

/// Why a single-file secure delete was refused.
#[derive(Debug, Clone, PartialEq, Eq)]
pub enum ShredError {
    /// The target path does not exist.
    NotFound,
    /// The target path exists but is not a regular file.
    NotAFile,
    /// A platform read/write/seek/sync/remove call failed; carries its message.
    IoError(String),
}

/// What a permitted secure delete has to do to the target file.
#[derive(Debug, Clone, Copy, PartialEq, Eq, Structural)]
pub enum ShredAction {
    /// The file is empty: remove it directly, no overwrite pass.
    RemoveOnly,
    /// The file has content: run all overwrite passes, sync, then remove.
    Overwrite,
}

/// Decide whether a secure delete of a single target may proceed.
///
/// `exists` and `is_file` are the probed state of the target path and
/// `len` the length of the regular file found there (ignored otherwise).
pub fn shred_plan(exists: bool, is_file: bool, len: u64) -> (r: Result<
    ShredAction,
    ShredError,
>)
    ensures
        !exists ==> r == Result::<ShredAction, ShredError>::Err(ShredError::NotFound),
        exists && !is_file ==> r == Result::<ShredAction, ShredError>::Err(ShredError::NotAFile),
        exists && is_file && len == 0 ==> r == Result::<ShredAction, ShredError>::Ok(
            ShredAction::RemoveOnly,
        ),
        exists && is_file && len > 0 ==> r == Result::<ShredAction, ShredError>::Ok(
            ShredAction::Overwrite,
        ),
{
    if !exists {
        Err(ShredError::NotFound)
    } else if !is_file {
        Err(ShredError::NotAFile)
    } else if len == 0 {
        Ok(ShredAction::RemoveOnly)
    } else {
        Ok(ShredAction::Overwrite)
    }
}

/// One overwrite pass of the fixed erasure scheme.
#[derive(Debug, Clone, Copy, PartialEq, Eq, Structural)]
pub enum Pass {
    /// Write the byte 0x00 across the whole length.
    Zeros,
    /// Write the byte 0xFF across the whole length.
    Ones,
    /// Write unpredictable bytes across the whole length.
    Random,
}

/// Whether a byte is admissible output of a pass: the pass's fixed
/// pattern, or anything for the random pass.
pub open spec fn pass_byte_ok(p: Pass, b: u8) -> bool {
    match p {
        Pass::Zeros => b == 0x00,
        Pass::Ones => b == 0xFF,
        Pass::Random => true,
    }
}

/// The passes of the scheme as a mathematical sequence, in the order
/// they run.
pub open spec fn pass_sequence_spec() -> Seq<Pass> {
    seq![Pass::Zeros, Pass::Ones, Pass::Random]
}

/// The three passes of the erasure scheme, in the order they run:
/// zeros, then ones, then random data.
pub fn pass_sequence() -> (v: Vec<Pass>)
    ensures
        v@ =~= pass_sequence_spec(),
{
    let mut v: Vec<Pass> = Vec::new();
    v.push(Pass::Zeros);
    v.push(Pass::Ones);
    v.push(Pass::Random);
    v
}

/// Size of one overwrite chunk.
pub const CHUNK_LEN: usize = 64 * 1024;

/// A buffer of `n` copies of `b`.
fn pattern_chunk(b: u8, n: usize) -> (v: Vec<u8>)
    ensures
        v@.len() == n,
        forall|i: int| 0 <= i < n ==> v@[i] == b,
{
    let mut v: Vec<u8> = Vec::new();
    let mut k: usize = 0;
    while k < n
        invariant
            k <= n,
            v@.len() == k,
            forall|i: int| 0 <= i < k ==> v@[i] == b,
        decreases n - k,
    {
        v.push(b);
        k = k + 1;
    }
    v
}

/// Relies on `rand::Rng::fill` on a byte slice: it fills the slice in
/// place with random data and leaves its length unchanged. Nothing is
/// assumed about the bytes themselves.
#[verifier::external_body]
fn fill_random(buf: &mut Vec<u8>)
    ensures
        final(buf)@.len() == old(buf)@.len(),
{
    rand::Rng::fill(&mut rand::thread_rng(), buf.as_mut_slice());
}

/// A buffer of `n` random bytes.
fn random_chunk(n: usize) -> (v: Vec<u8>)
    ensures
        v@.len() == n,
{
    let mut v = pattern_chunk(0x00, n);
    fill_random(&mut v);
    v
}

/// Producer of the byte chunks of one overwrite pass over a file of a
/// known length.
///
/// The shell seeks the file to offset 0, then writes each chunk taken
/// from `next_chunk` in order until `is_done`, so the concatenation of
/// the chunks — the ghost `emitted` transcript — is exactly what the pass
/// put at offsets `0..len`. The well-formedness invariant ties every
/// emitted byte to the pass's pattern.
pub struct PassWriter {
    /// The pass being produced.
    pub pass: Pass,
    /// Length of the file being overwritten.
    pub len: u64,
    /// Bytes produced so far.
    pub written: u64,
    /// Transcript of all bytes produced so far, in order.
    pub emitted: Ghost<Seq<u8>>,
}

impl PassWriter {
    /// The transcript matches the progress counter and the pass pattern.
    pub open spec fn wf(self) -> bool {
        &&& self.written <= self.len
        &&& self.emitted@.len() == self.written
        &&& forall|i: int| 0 <= i < self.emitted@.len() ==> pass_byte_ok(self.pass, self.emitted@[i])
    }

    /// Start a pass over a file of length `len`.
    pub fn new(pass: Pass, len: u64) -> (w: PassWriter)
        ensures
            w.wf(),
            w.pass == pass,
            w.len == len,
            w.written == 0,
            w.emitted@ =~= Seq::<u8>::empty(),
    {
        PassWriter { pass, len, written: 0, emitted: Ghost(Seq::empty()) }
    }

    /// Whether the pass has produced its whole length.
    pub fn is_done(&self) -> (r: bool)
        ensures
            r == (self.written == self.len),
    {
        self.written == self.len
    }

    /// Produce the next chunk of the pass: the pass's bytes for the file
    /// range starting at the current offset, one full chunk or the
    /// remainder of the file, whichever is shorter.
    pub fn next_chunk(&mut self) -> (chunk: Vec<u8>)
        requires
            old(self).wf(),
            old(self).written < old(self).len,
        ensures
            final(self).wf(),
            final(self).pass == old(self).pass,
            final(self).len == old(self).len,
            chunk@.len() == if old(self).len - old(self).written >= CHUNK_LEN {
                CHUNK_LEN as int
            } else {
                old(self).len - old(self).written
            },
            chunk@.len() > 0,
            forall|i: int| 0 <= i < chunk@.len() ==> pass_byte_ok(old(self).pass, chunk@[i]),
            final(self).written == old(self).written + chunk@.len(),
            final(self).emitted@ =~= old(self).emitted@ + chunk@,
    {
        let remaining = self.len - self.written;
        let n: usize = if remaining >= CHUNK_LEN as u64 {
            CHUNK_LEN
        } else {
            remaining as usize
        };
        let chunk = match self.pass {
            Pass::Zeros => pattern_chunk(0x00, n),
            Pass::Ones => pattern_chunk(0xFF, n),
            Pass::Random => random_chunk(n),
        };
        self.written = self.written + n as u64;
        self.emitted = Ghost(self.emitted@ + chunk@);
        chunk
    }
}

/// Where a secure delete of one non-empty file stands.
#[derive(Debug, Clone, Copy, PartialEq, Eq)]
pub enum ShredStage {
    /// The overwrite pass with this index (0, 1 or 2) is owed next.
    Writing { idx: u8 },
    /// Every pass is written and synced; one final flush is owed.
    Flushing,
    /// Flushed; the file handle must be released before anything else.
    Releasing,
    /// Released; remove the directory entry.
    Removing,
    /// The directory entry is gone.
    Done,
    /// An I/O failure ended the job; the file stays as it was.
    Failed,
}

/// The per-file secure-delete job: it hands out the passes in their fixed
/// order and only then permits the final flush and the removal, so the
/// shell cannot flush early, skip a pass, or remove before releasing.
///
/// Any I/O failure may be reported at any stage and is terminal.
#[derive(Debug, Clone, Copy, PartialEq, Eq)]
pub struct ShredJob {
    /// Length of the file being destroyed.
    pub len: u64,
    /// Where the job stands.
    pub stage: ShredStage,
}

impl ShredJob {
    /// The stage index never runs past the pass count.
    pub open spec fn wf(self) -> bool {
        self.stage matches ShredStage::Writing { idx } ==> idx < 3
    }

    /// Begin destroying a non-empty file of length `len`: the first
    /// overwrite pass is owed.
    pub fn start(len: u64) -> (j: ShredJob)
        ensures
            j.wf(),
            j.len == len,
            j.stage == (ShredStage::Writing { idx: 0 }),
    {
        ShredJob { len, stage: ShredStage::Writing { idx: 0 } }
    }

    /// The pass owed next, in the fixed order of the scheme, or `None`
    /// once all three are written (or the job ended).
    pub fn current_pass(&self) -> (p: Option<Pass>)
        requires
            self.wf(),
        ensures
            self.stage == (ShredStage::Writing { idx: 0u8 }) ==> p == Some(Pass::Zeros),
            self.stage == (ShredStage::Writing { idx: 1u8 }) ==> p == Some(Pass::Ones),
            self.stage == (ShredStage::Writing { idx: 2u8 }) ==> p == Some(Pass::Random),
            !(self.stage matches ShredStage::Writing { idx }) ==> p is None,
            p matches Some(q) ==> (self.stage matches ShredStage::Writing { idx } && q
                == pass_sequence_spec()[idx as int]),
    {
        match self.stage {
            ShredStage::Writing { idx } => {
                if idx == 0 {
                    Some(Pass::Zeros)
                } else if idx == 1 {
                    Some(Pass::Ones)
                } else {
                    Some(Pass::Random)
                }
            },
            _ => None,
        }
    }

    /// One pass was fully written and synced: the next pass is owed, or
    /// the final flush after the last one.
    pub fn pass_complete(&mut self)
        requires
            old(self).wf(),
            old(self).stage matches ShredStage::Writing { idx },
        ensures
            final(self).wf(),
            final(self).len == old(self).len,
            final(self).stage == (match old(self).stage {
                ShredStage::Writing { idx } => if idx < 2 {
                    ShredStage::Writing { idx: (idx + 1) as u8 }
                } else {
                    ShredStage::Flushing
                },
                s => s,
            }),
    {
        match self.stage {
            ShredStage::Writing { idx } => {
                if idx < 2 {
                    self.stage = ShredStage::Writing { idx: idx + 1 };
                } else {
                    self.stage = ShredStage::Flushing;
                }
            },
            _ => {},
        }
    }

    /// The final flush reached stable storage: the handle is to be
    /// released next.
    pub fn flushed(&mut self)
        requires
            old(self).stage == ShredStage::Flushing,
        ensures
            final(self).wf(),
            final(self).len == old(self).len,
            final(self).stage == ShredStage::Releasing,
    {
        self.stage = ShredStage::Releasing;
    }

    /// The handle was released: only now may the directory entry go —
    /// some platforms refuse or defer unlinking a file still open for
    /// writing.
    pub fn released(&mut self)
        requires
            old(self).stage == ShredStage::Releasing,
        ensures
            final(self).wf(),
            final(self).len == old(self).len,
            final(self).stage == ShredStage::Removing,
    {
        self.stage = ShredStage::Removing;
    }

    /// The directory entry was removed: the job is done.
    pub fn removed(&mut self)
        requires
            old(self).stage == ShredStage::Removing,
        ensures
            final(self).wf(),
            final(self).len == old(self).len,
            final(self).stage == ShredStage::Done,
    {
        self.stage = ShredStage::Done;
    }

    /// An I/O failure ended the job; the file is left as it stands, and
    /// nothing more is owed.
    pub fn fail(&mut self)
        ensures
            final(self).wf(),
            final(self).len == old(self).len,
            final(self).stage == ShredStage::Failed,
    {
        self.stage = ShredStage::Failed;
    }
}

/// A completed fixed-pattern pass wrote its pattern and nothing else:
/// once a writer has produced its whole length, the transcript of a zeros
/// pass is all 0x00 and the transcript of a ones pass is all 0xFF, over
/// the file's entire length.
pub proof fn lemma_completed_pass_is_pattern(w: PassWriter)
    requires
        w.wf(),
        w.written == w.len,
    ensures
        w.emitted@.len() == w.len,
        w.pass is Zeros ==> w.emitted@ =~= Seq::new(w.len as nat, |i: int| 0x00u8),
        w.pass is Ones ==> w.emitted@ =~= Seq::new(w.len as nat, |i: int| 0xFFu8),
{
}

} // verus!
