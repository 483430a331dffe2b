//! The WAL abstraction layer.
//!
//! A `Wal` stands between the SQL engine and physical storage. It exposes
//! transaction boundaries, frame addressing, frame insertion and
//! checkpointing, and every committed page change passes through
//! `insert_frames` — which is therefore the interception point for
//! replication capture. The interface is implementable three ways: a
//! pass-through wrapper ([`WrapWal`]), a primary-side capture
//! implementation ([`crate::replication::ReplicationWal`]) and a
//! replica-side implementation that refuses local writes ([`ReplicaWal`]).

use vstd::prelude::*;

verus! {

/// Engine-level error code carried through the WAL layer unchanged, so the
/// calling engine's retry and busy-handling logic keeps working.
#[derive(Clone, Copy, Debug, PartialEq, Eq, Structural)]
pub struct WalError {
    pub code: u32,
}

/// The caller holds a lock or uses the interface out of order.
pub const WAL_MISUSE: u32 = 21;

/// The log moved past this reader's snapshot, or a checkpoint raced a writer.
pub const WAL_BUSY: u32 = 5;

/// The WAL refuses local write transactions (replica side).
pub const WAL_READONLY: u32 = 8;

impl WalError {
    pub fn misuse() -> (r: Self)
        ensures
            r.code == WAL_MISUSE,
    {
        WalError { code: WAL_MISUSE }
    }

    pub fn busy() -> (r: Self)
        ensures
            r.code == WAL_BUSY,
    {
        WalError { code: WAL_BUSY }
    }

    pub fn readonly() -> (r: Self)
        ensures
            r.code == WAL_READONLY,
    {
        WalError { code: WAL_READONLY }
    }
}

/// One page-change record: a page number and the page's new payload.
pub struct Frame {
    pub page_no: u32,
    pub data: Vec<u8>,
}

/// Mathematical value of a [`Frame`].
#[verifier::ext_equal]
pub ghost struct FrameView {
    pub page_no: u32,
    pub data: Seq<u8>,
}

impl View for Frame {
    type V = FrameView;

    open spec fn view(&self) -> FrameView {
        FrameView { page_no: self.page_no, data: self.data@ }
    }
}

impl Frame {
    pub fn new(page_no: u32, data: Vec<u8>) -> (r: Self)
        ensures
            r@ == (FrameView { page_no, data: data@ }),
    {
        Frame { page_no, data }
    }

    pub fn dup(&self) -> (r: Self)
        ensures
            r@ == self@,
    {
        Frame { page_no: self.page_no, data: self.data.clone() }
    }
}

/// The frames of a batch, as mathematical values, in order.
pub open spec fn frames_view(frames: Seq<Frame>) -> Seq<FrameView> {
    frames.map_values(|f: Frame| f@)
}

/// An element-wise copy of a frame batch, for mirroring one batch into two
/// destinations (the storage WAL and a replication log).
pub fn dup_frames(frames: &Vec<Frame>) -> (r: Vec<Frame>)
    ensures
        frames_view(r@) == frames_view(frames@),
{
    let mut out: Vec<Frame> = Vec::new();
    let mut i: usize = 0;
    while i < frames.len()
        invariant
            i <= frames.len(),
            out@.len() == i,
            forall|k: int| 0 <= k < i ==> out@[k]@ == frames@[k]@,
        decreases frames.len() - i,
    {
        out.push(frames[i].dup());
        i = i + 1;
    }
    proof {
        assert(frames_view(out@) =~= frames_view(frames@));
    }
    out
}

/// How far a checkpoint folds the log back into the main database file.
#[derive(Clone, Copy, Debug, PartialEq, Eq, Structural)]
pub enum CheckpointMode {
    /// Backfill committed frames, leaving the log in place.
    Passive,
    /// Backfill everything and restart the log from scratch.
    Truncate,
}

/// Mathematical state of one WAL instance.
///
/// `committed` holds the durable frames in commit order; `pending` the
/// frames of the open write transaction; `last_seen` the reader's snapshot
/// (how many committed frames the current read transaction observes);
/// `backfilled` how many committed frames a checkpoint has folded into the
/// main database file; `db_size` the database size in pages as of the last
/// commit.
#[verifier::ext_equal]
pub ghost struct WalView {
    pub committed: Seq<FrameView>,
    pub pending: Seq<FrameView>,
    pub db_size: u32,
    pub last_seen: nat,
    pub backfilled: nat,
    pub read_txn: bool,
    pub write_txn: bool,
}

impl WalView {
    /// Structural bounds every WAL keeps: frame counts stay addressable by
    /// the engine's 32-bit frame numbers, and snapshot/backfill marks never
    /// run past the log.
    pub open spec fn wf(self) -> bool {
        &&& self.committed.len() + self.pending.len() < 0xFFFF_FFFF
        &&& self.last_seen <= self.committed.len()
        &&& self.backfilled <= self.committed.len()
    }
}

/// Frame number (1-based) of the newest frame for `page_no` in `log`, or 0
/// when the page has no frame there and the engine must fall back to the
/// main database file.
pub open spec fn frame_for_page(log: Seq<FrameView>, page_no: u32) -> int
    decreases log.len(),
{
    if log.len() == 0 {
        0
    } else if log.last().page_no == page_no {
        log.len() as int
    } else {
        frame_for_page(log.drop_last(), page_no)
    }
}

pub proof fn lemma_frame_for_page_in_range(log: Seq<FrameView>, page_no: u32)
    ensures
        0 <= frame_for_page(log, page_no) <= log.len(),
        frame_for_page(log, page_no) > 0 ==> log[frame_for_page(log, page_no) - 1].page_no
            == page_no,
    decreases log.len(),
{
    if log.len() > 0 && log.last().page_no != page_no {
        lemma_frame_for_page_in_range(log.drop_last(), page_no);
    }
}

/// A pluggable write-ahead log. The contracts pin every operation's effect
/// on [`WalView`], so that the rest of the server is independent of which
/// implementation stands behind a connection.
pub trait Wal: Sized {
    /// The abstract state this WAL presents to the engine.
    spec fn wal(&self) -> WalView;

    /// Implementation invariant; every implementation's invariant implies
    /// the structural bounds of [`WalView::wf`].
    spec fn inv(&self) -> bool;

    /// Whether this WAL accepts local write transactions. A replica-side
    /// WAL refuses them and delegates writes to the write-proxy connection.
    spec fn writable(&self) -> bool;

    proof fn inv_implies_wf(&self)
        requires
            self.inv(),
        ensures
            self.wal().wf(),
    ;

    /// Begin a read transaction; reports whether the log changed since this
    /// handle's last observation and pins the snapshot at the log's head.
    fn begin_read_txn(&mut self) -> (r: Result<bool, WalError>)
        requires
            old(self).inv(),
        ensures
            final(self).inv(),
            final(self).writable() == old(self).writable(),
            r == Ok::<bool, WalError>(old(self).wal().committed.len() != old(self).wal().last_seen),
            final(self).wal() == (WalView {
                read_txn: true,
                last_seen: old(self).wal().committed.len(),
                ..old(self).wal()
            }),
    ;

    /// End the read transaction.
    fn end_read_txn(&mut self)
        requires
            old(self).inv(),
        ensures
            final(self).inv(),
            final(self).writable() == old(self).writable(),
            final(self).wal() == (WalView { read_txn: false, ..old(self).wal() }),
    ;

    /// Begin a write transaction. Requires an open read transaction whose
    /// snapshot is at the head of the log (otherwise the writer would fork
    /// history); refused entirely on a read-only WAL.
    fn begin_write_txn(&mut self) -> (r: Result<(), WalError>)
        requires
            old(self).inv(),
        ensures
            final(self).inv(),
            final(self).writable() == old(self).writable(),
            !old(self).writable() ==> r == Err::<(), WalError>(WalError { code: WAL_READONLY })
                && final(self).wal() == old(self).wal(),
            old(self).writable() && (old(self).wal().write_txn || !old(self).wal().read_txn)
                ==> r == Err::<(), WalError>(WalError { code: WAL_MISUSE }) && final(self).wal()
                == old(self).wal(),
            old(self).writable() && !old(self).wal().write_txn && old(self).wal().read_txn
                && old(self).wal().last_seen != old(self).wal().committed.len() ==> r == Err::<
                (),
                WalError,
            >(WalError { code: WAL_BUSY }) && final(self).wal() == old(self).wal(),
            old(self).writable() && !old(self).wal().write_txn && old(self).wal().read_txn
                && old(self).wal().last_seen == old(self).wal().committed.len() ==> r == Ok::<
                (),
                WalError,
            >(()) && final(self).wal() == (WalView { write_txn: true, ..old(self).wal() }),
    ;

    /// End the write transaction, dropping any frames not committed.
    fn end_write_txn(&mut self) -> (r: Result<(), WalError>)
        requires
            old(self).inv(),
        ensures
            final(self).inv(),
            final(self).writable() == old(self).writable(),
            r == Ok::<(), WalError>(()),
            final(self).wal() == (WalView {
                write_txn: false,
                pending: Seq::<FrameView>::empty(),
                ..old(self).wal()
            }),
    ;

    /// Resolve a logical page number to a frame number within this reader's
    /// snapshot of the log; 0 when the page is not in the snapshot.
    fn find_frame(&mut self, page_no: u32) -> (r: Result<u32, WalError>)
        requires
            old(self).inv(),
        ensures
            final(self).inv(),
            final(self).writable() == old(self).writable(),
            final(self).wal() == old(self).wal(),
            r == Ok::<u32, WalError>(
                frame_for_page(
                    old(self).wal().committed.take(old(self).wal().last_seen as int),
                    page_no,
                ) as u32,
            ),
    ;

    /// Read a frame's payload into the caller-provided buffer.
    fn read_frame(&mut self, frame_no: u32, buf: &mut Vec<u8>) -> (r: Result<(), WalError>)
        requires
            old(self).inv(),
        ensures
            final(self).inv(),
            final(self).writable() == old(self).writable(),
            final(self).wal() == old(self).wal(),
            1 <= frame_no <= old(self).wal().committed.len() ==> r == Ok::<(), WalError>(())
                && final(buf)@ == old(self).wal().committed[frame_no - 1].data,
            !(1 <= frame_no <= old(self).wal().committed.len()) ==> r == Err::<(), WalError>(
                WalError { code: WAL_MISUSE },
            ) && final(buf)@ == old(buf)@,
    ;

    /// Database size in pages as of the last commit.
    fn db_size(&self) -> (r: u32)
        requires
            self.inv(),
        ensures
            r == self.wal().db_size,
    ;

    /// Append a batch of frames to the open write transaction; with
    /// `is_commit` the batch is the transaction's last and the whole
    /// transaction becomes durable at once, with `size_after` as the new
    /// database size. This is the single mutation point through which every
    /// committed page change passes.
    fn insert_frames(&mut self, frames: Vec<Frame>, size_after: u32, is_commit: bool) -> (r: Result<
        (),
        WalError,
    >)
        requires
            old(self).inv(),
            old(self).wal().committed.len() + old(self).wal().pending.len() + frames@.len()
                < 0xFFFF_FFFF,
        ensures
            final(self).inv(),
            final(self).writable() == old(self).writable(),
            !old(self).wal().write_txn ==> r == Err::<(), WalError>(
                WalError { code: WAL_MISUSE },
            ) && final(self).wal() == old(self).wal(),
            old(self).wal().write_txn && !is_commit ==> r == Ok::<(), WalError>(()) && final(self).wal() == (WalView {
                pending: old(self).wal().pending + frames_view(frames@),
                ..old(self).wal()
            }),
            old(self).wal().write_txn && is_commit ==> r == Ok::<(), WalError>(()) && final(self).wal() == (WalView {
                committed: old(self).wal().committed + old(self).wal().pending + frames_view(
                    frames@,
                ),
                pending: Seq::<FrameView>::empty(),
                db_size: size_after,
                last_seen: (old(self).wal().committed.len() + old(self).wal().pending.len()
                    + frames@.len()) as nat,
                ..old(self).wal()
            }),
    ;

    /// Mark a savepoint inside the open write transaction.
    fn savepoint(&mut self) -> (mark: usize)
        requires
            old(self).inv(),
        ensures
            final(self).inv(),
            final(self).writable() == old(self).writable(),
            final(self).wal() == old(self).wal(),
            mark == old(self).wal().pending.len(),
    ;

    /// Roll the open write transaction back to a savepoint mark.
    fn savepoint_undo(&mut self, mark: usize) -> (r: Result<(), WalError>)
        requires
            old(self).inv(),
        ensures
            final(self).inv(),
            final(self).writable() == old(self).writable(),
            mark > old(self).wal().pending.len() ==> r == Err::<(), WalError>(
                WalError { code: WAL_MISUSE },
            ) && final(self).wal() == old(self).wal(),
            mark <= old(self).wal().pending.len() ==> r == Ok::<(), WalError>(()) && final(self).wal() == (WalView {
                pending: old(self).wal().pending.take(mark as int),
                ..old(self).wal()
            }),
    ;

    /// Roll back the whole open write transaction (a no-op without one).
    fn undo(&mut self) -> (r: Result<(), WalError>)
        requires
            old(self).inv(),
        ensures
            final(self).inv(),
            final(self).writable() == old(self).writable(),
            r == Ok::<(), WalError>(()),
            final(self).wal() == (WalView {
                pending: Seq::<FrameView>::empty(),
                ..old(self).wal()
            }),
    ;

    /// Fold log contents back into the main database file, reporting
    /// (frames in the log, frames checkpointed). Refused while a write
    /// transaction is open.
    fn checkpoint(&mut self, mode: CheckpointMode) -> (r: Result<(u32, u32), WalError>)
        requires
            old(self).inv(),
        ensures
            final(self).inv(),
            final(self).writable() == old(self).writable(),
            old(self).wal().write_txn ==> r == Err::<(u32, u32), WalError>(
                WalError { code: WAL_BUSY },
            ) && final(self).wal() == old(self).wal(),
            !old(self).wal().write_txn && mode == CheckpointMode::Passive ==> r == Ok::<
                (u32, u32),
                WalError,
            >(
                (old(self).wal().committed.len() as u32, old(self).wal().committed.len() as u32),
            ) && final(self).wal() == (WalView {
                backfilled: old(self).wal().committed.len(),
                ..old(self).wal()
            }),
            !old(self).wal().write_txn && mode == CheckpointMode::Truncate ==> r == Ok::<
                (u32, u32),
                WalError,
            >(
                (old(self).wal().committed.len() as u32, old(self).wal().committed.len() as u32),
            ) && final(self).wal() == (WalView {
                committed: Seq::<FrameView>::empty(),
                backfilled: 0,
                last_seen: 0,
                ..old(self).wal()
            }),
    ;

    /// Index of the last frame in the log (its frame count).
    fn last_frame_index(&self) -> (r: u32)
        requires
            self.inv(),
        ensures
            r == self.wal().committed.len(),
    ;

    /// Whether the engine must account this WAL's memory on its heap.
    spec fn heap_memory(&self) -> bool;

    fn uses_heap_memory(&self) -> (r: bool)
        ensures
            r == self.heap_memory(),
    ;
}

pub proof fn lemma_frames_view_add(a: Seq<Frame>, b: Seq<Frame>)
    ensures
        frames_view(a + b) == frames_view(a) + frames_view(b),
{
    assert(frames_view(a + b) =~= frames_view(a) + frames_view(b));
}

pub proof fn lemma_frames_view_take(s: Seq<Frame>, k: int)
    requires
        0 <= k <= s.len(),
    ensures
        frames_view(s.take(k)) == frames_view(s).take(k),
{
    assert(frames_view(s.take(k)) =~= frames_view(s).take(k));
}

/// A WAL-factory capability: creates WAL instances of one fixed type and
/// decides up front whether the engine must set up shared memory for them.
/// The file- and VFS-bound parts of opening a log belong to the storage
/// engine, an external collaborator; what the control plane relies on is
/// that a fresh instance starts at rest, with no transaction open and
/// nothing pending.
pub trait CreateWal: Sized {
    type Wal: Wal;

    spec fn shared_memory(&self) -> bool;

    fn use_shared_memory(&self) -> (r: bool)
        ensures
            r == self.shared_memory(),
    ;

    /// Open a WAL instance, at rest.
    fn open(&self) -> (r: Result<Self::Wal, WalError>)
        ensures
            r matches Ok(w) ==> w.inv() && !w.wal().read_txn && !w.wal().write_txn && w.wal().pending.len() == 0,
    ;

    /// Close an instance, dropping whatever was not committed.
    fn close(&self, wal: Self::Wal) -> (r: Result<(), WalError>)
        ensures
            r == Ok::<(), WalError>(()),
    ;
}

/// The write-ahead log of the stock storage engine, modelled in memory: an
/// append-only sequence of committed frames plus the frames of the open
/// write transaction.
pub struct MemWal {
    committed: Vec<Frame>,
    pending: Vec<Frame>,
    db_size: u32,
    last_seen: usize,
    backfilled: usize,
    read_txn: bool,
    write_txn: bool,
}

impl MemWal {
    pub fn new() -> (r: Self)
        ensures
            r.inv(),
            r.wal() == (WalView {
                committed: Seq::<FrameView>::empty(),
                pending: Seq::<FrameView>::empty(),
                db_size: 0,
                last_seen: 0,
                backfilled: 0,
                read_txn: false,
                write_txn: false,
            }),
            r.writable(),
    {
        let r = MemWal {
            committed: Vec::new(),
            pending: Vec::new(),
            db_size: 0,
            last_seen: 0,
            backfilled: 0,
            read_txn: false,
            write_txn: false,
        };
        proof {
            assert(r.wal() =~= WalView {
                committed: Seq::<FrameView>::empty(),
                pending: Seq::<FrameView>::empty(),
                db_size: 0,
                last_seen: 0,
                backfilled: 0,
                read_txn: false,
                write_txn: false,
            });
        }
        r
    }
}

impl Wal for MemWal {
    closed spec fn wal(&self) -> WalView {
        WalView {
            committed: frames_view(self.committed@),
            pending: frames_view(self.pending@),
            db_size: self.db_size,
            last_seen: self.last_seen as nat,
            backfilled: self.backfilled as nat,
            read_txn: self.read_txn,
            write_txn: self.write_txn,
        }
    }

    open spec fn inv(&self) -> bool {
        self.wal().wf()
    }

    open spec fn writable(&self) -> bool {
        true
    }

    proof fn inv_implies_wf(&self) {
    }

    fn begin_read_txn(&mut self) -> (r: Result<bool, WalError>) {
        let changed = self.committed.len() != self.last_seen;
        self.read_txn = true;
        self.last_seen = self.committed.len();
        proof {
            assert(final(self).wal() =~= (WalView {
                read_txn: true,
                last_seen: old(self).wal().committed.len(),
                ..old(self).wal()
            }));
        }
        Ok(changed)
    }

    fn end_read_txn(&mut self) {
        self.read_txn = false;
        proof {
            assert(final(self).wal() =~= (WalView { read_txn: false, ..old(self).wal() }));
        }
    }

    fn begin_write_txn(&mut self) -> (r: Result<(), WalError>) {
        if self.write_txn || !self.read_txn {
            Err(WalError::misuse())
        } else if self.last_seen != self.committed.len() {
            Err(WalError::busy())
        } else {
            self.write_txn = true;
            proof {
                assert(final(self).wal() =~= (WalView { write_txn: true, ..old(self).wal() }));
            }
            Ok(())
        }
    }

    fn end_write_txn(&mut self) -> (r: Result<(), WalError>) {
        self.write_txn = false;
        self.pending.clear();
        proof {
            assert(final(self).wal() =~= (WalView {
                write_txn: false,
                pending: Seq::<FrameView>::empty(),
                ..old(self).wal()
            }));
        }
        Ok(())
    }

    fn find_frame(&mut self, page_no: u32) -> (r: Result<u32, WalError>) {
        let ghost snap = old(self).wal().committed.take(old(self).wal().last_seen as int);
        let mut i: usize = self.last_seen;
        proof {
            assert(snap.take(i as int) =~= snap);
        }
        while i > 0
            invariant
                self == old(self),
                self.inv(),
                i <= self.last_seen <= self.committed.len(),
                snap == self.wal().committed.take(self.last_seen as int),
                frame_for_page(snap, page_no) == frame_for_page(snap.take(i as int), page_no),
            decreases i,
        {
            if self.committed[i - 1].page_no == page_no {
                proof {
                    let part = snap.take(i as int);
                    assert(part.last() == snap[i - 1]);
                    assert(snap[i - 1] == self.committed@[i - 1]@);
                    assert(frame_for_page(part, page_no) == i);
                }
                return Ok(i as u32);
            }
            proof {
                let part = snap.take(i as int);
                assert(part.last() == self.committed@[i - 1]@);
                assert(part.last().page_no != page_no);
                assert(part.drop_last() =~= snap.take(i - 1));
            }
            i = i - 1;
        }
        proof {
            assert(snap.take(0) =~= Seq::<FrameView>::empty());
            assert(frame_for_page(snap, page_no) == 0);
        }
        Ok(0)
    }

    fn read_frame(&mut self, frame_no: u32, buf: &mut Vec<u8>) -> (r: Result<(), WalError>) {
        if 1 <= frame_no && (frame_no as usize) <= self.committed.len() {
            let idx: usize = (frame_no - 1) as usize;
            let data = self.committed[idx].data.clone();
            proof {
                assert(data@ =~= self.committed@[idx as int]@.data);
            }
            *buf = data;
            Ok(())
        } else {
            Err(WalError::misuse())
        }
    }

    fn db_size(&self) -> (r: u32) {
        self.db_size
    }

    fn insert_frames(&mut self, frames: Vec<Frame>, size_after: u32, is_commit: bool) -> (r: Result<
        (),
        WalError,
    >) {
        if !self.write_txn {
            return Err(WalError::misuse());
        }
        let mut frames = frames;
        let ghost frames0 = frames@;
        proof {
            lemma_frames_view_add(self.pending@, frames@);
        }
        self.pending.append(&mut frames);
        if is_commit {
            proof {
                lemma_frames_view_add(old(self).committed@, self.pending@);
                lemma_frames_view_add(old(self).pending@, frames0);
            }
            self.committed.append(&mut self.pending);
            self.db_size = size_after;
            self.last_seen = self.committed.len();
            proof {
                assert(final(self).wal() =~= (WalView {
                    committed: old(self).wal().committed + old(self).wal().pending + frames_view(
                        frames0,
                    ),
                    pending: Seq::<FrameView>::empty(),
                    db_size: size_after,
                    last_seen: (old(self).wal().committed.len() + old(self).wal().pending.len()
                        + frames0.len()) as nat,
                    ..old(self).wal()
                }));
            }
        } else {
            proof {
                assert(final(self).wal() =~= (WalView {
                    pending: old(self).wal().pending + frames_view(frames0),
                    ..old(self).wal()
                }));
            }
        }
        Ok(())
    }

    fn savepoint(&mut self) -> (mark: usize) {
        self.pending.len()
    }

    fn savepoint_undo(&mut self, mark: usize) -> (r: Result<(), WalError>) {
        if mark > self.pending.len() {
            Err(WalError::misuse())
        } else {
            self.pending.truncate(mark);
            proof {
                lemma_frames_view_take(old(self).pending@, mark as int);
                assert(final(self).wal() =~= (WalView {
                    pending: old(self).wal().pending.take(mark as int),
                    ..old(self).wal()
                }));
            }
            Ok(())
        }
    }

    fn undo(&mut self) -> (r: Result<(), WalError>) {
        self.pending.clear();
        proof {
            assert(final(self).wal() =~= (WalView {
                pending: Seq::<FrameView>::empty(),
                ..old(self).wal()
            }));
        }
        Ok(())
    }

    fn checkpoint(&mut self, mode: CheckpointMode) -> (r: Result<(u32, u32), WalError>) {
        if self.write_txn {
            return Err(WalError::busy());
        }
        let total = self.committed.len() as u32;
        match mode {
            CheckpointMode::Passive => {
                self.backfilled = self.committed.len();
                proof {
                    assert(final(self).wal() =~= (WalView {
                        backfilled: old(self).wal().committed.len(),
                        ..old(self).wal()
                    }));
                }
            },
            CheckpointMode::Truncate => {
                self.committed.clear();
                self.backfilled = 0;
                self.last_seen = 0;
                proof {
                    assert(final(self).wal() =~= (WalView {
                        committed: Seq::<FrameView>::empty(),
                        backfilled: 0,
                        last_seen: 0,
                        ..old(self).wal()
                    }));
                }
            },
        }
        Ok((total, total))
    }

    fn last_frame_index(&self) -> (r: u32) {
        self.committed.len() as u32
    }

    open spec fn heap_memory(&self) -> bool {
        true
    }

    fn uses_heap_memory(&self) -> (r: bool) {
        true
    }
}

/// Factory of [`MemWal`] instances: the in-memory stock engine needs no
/// shared memory.
pub struct MemCreateWal;

impl CreateWal for MemCreateWal {
    type Wal = MemWal;

    open spec fn shared_memory(&self) -> bool {
        false
    }

    fn use_shared_memory(&self) -> (r: bool) {
        false
    }

    fn open(&self) -> (r: Result<MemWal, WalError>)
        ensures
            r is Ok,
    {
        Ok(MemWal::new())
    }

    fn close(&self, _wal: MemWal) -> (r: Result<(), WalError>) {
        Ok(())
    }
}

/// A pass-through WAL factory: delegates to the factory it wraps and hands
/// every opened WAL out wrapped in [`WrapWal`], adding no behavior of its
/// own.
pub struct WrapCreateWal<C: CreateWal> {
    pub inner: C,
}

impl<C: CreateWal> CreateWal for WrapCreateWal<C> {
    type Wal = WrapWal<C::Wal>;

    open spec fn shared_memory(&self) -> bool {
        self.inner.shared_memory()
    }

    fn use_shared_memory(&self) -> (r: bool) {
        self.inner.use_shared_memory()
    }

    fn open(&self) -> (r: Result<WrapWal<C::Wal>, WalError>) {
        match self.inner.open() {
            Ok(w) => Ok(WrapWal(w)),
            Err(e) => Err(e),
        }
    }

    fn close(&self, wal: WrapWal<C::Wal>) -> (r: Result<(), WalError>) {
        self.inner.close(wal.0)
    }
}

/// A pass-through WAL: an adapter that delegates every operation to the WAL
/// it wraps and is free of business logic, so that intercepting
/// implementations can be added independently. Wrapping a WAL this way adds
/// zero behavioral change: see [`lemma_wrap_wal_transparent`].
pub struct WrapWal<W: Wal>(pub W);

impl<W: Wal> Wal for WrapWal<W> {
    open spec fn wal(&self) -> WalView {
        self.0.wal()
    }

    open spec fn inv(&self) -> bool {
        self.0.inv()
    }

    open spec fn writable(&self) -> bool {
        self.0.writable()
    }

    proof fn inv_implies_wf(&self) {
        self.0.inv_implies_wf();
    }

    fn begin_read_txn(&mut self) -> (r: Result<bool, WalError>) {
        self.0.begin_read_txn()
    }

    fn end_read_txn(&mut self) {
        self.0.end_read_txn()
    }

    fn begin_write_txn(&mut self) -> (r: Result<(), WalError>) {
        self.0.begin_write_txn()
    }

    fn end_write_txn(&mut self) -> (r: Result<(), WalError>) {
        self.0.end_write_txn()
    }

    fn find_frame(&mut self, page_no: u32) -> (r: Result<u32, WalError>) {
        self.0.find_frame(page_no)
    }

    fn read_frame(&mut self, frame_no: u32, buf: &mut Vec<u8>) -> (r: Result<(), WalError>) {
        self.0.read_frame(frame_no, buf)
    }

    fn db_size(&self) -> (r: u32) {
        self.0.db_size()
    }

    fn insert_frames(&mut self, frames: Vec<Frame>, size_after: u32, is_commit: bool) -> (r: Result<
        (),
        WalError,
    >) {
        self.0.insert_frames(frames, size_after, is_commit)
    }

    fn savepoint(&mut self) -> (mark: usize) {
        self.0.savepoint()
    }

    fn savepoint_undo(&mut self, mark: usize) -> (r: Result<(), WalError>) {
        self.0.savepoint_undo(mark)
    }

    fn undo(&mut self) -> (r: Result<(), WalError>) {
        self.0.undo()
    }

    fn checkpoint(&mut self, mode: CheckpointMode) -> (r: Result<(u32, u32), WalError>) {
        self.0.checkpoint(mode)
    }

    fn last_frame_index(&self) -> (r: u32) {
        self.0.last_frame_index()
    }

    open spec fn heap_memory(&self) -> bool {
        self.0.heap_memory()
    }

    fn uses_heap_memory(&self) -> (r: bool) {
        self.0.uses_heap_memory()
    }
}

/// A pass-through WAL presents exactly the abstract state of the WAL it
/// wraps, and by the contracts of [`Wal`] every operation then has exactly
/// the effect and result it would have on the wrapped WAL directly: for an
/// identical sequence of operations, wrapped and unwrapped runs produce
/// identical logs, identical payloads and identical results.
pub proof fn lemma_wrap_wal_transparent<W: Wal>(w: WrapWal<W>)
    ensures
        w.wal() == w.0.wal(),
        w.inv() == w.0.inv(),
        w.writable() == w.0.writable(),
{
}

/// The replica-side WAL: serves reads from locally applied frames and
/// refuses local write transactions — writes reach a replica only as frames
/// shipped from the primary, injected through [`ReplicaWal::inject_frames`],
/// or through the write-proxy connection which forwards them to the primary.
pub struct ReplicaWal {
    inner: MemWal,
}

impl ReplicaWal {
    pub fn new() -> (r: Self)
        ensures
            r.inv(),
            r.wal() == (WalView {
                committed: Seq::<FrameView>::empty(),
                pending: Seq::<FrameView>::empty(),
                db_size: 0,
                last_seen: 0,
                backfilled: 0,
                read_txn: false,
                write_txn: false,
            }),
            !r.writable(),
    {
        ReplicaWal { inner: MemWal::new() }
    }

    /// Replay a batch of frames shipped from the primary, committed there
    /// as one transaction. Refused while a local read transaction holds a
    /// snapshot (the snapshot must not move under the reader).
    pub fn inject_frames(&mut self, frames: Vec<Frame>, size_after: u32) -> (r: Result<
        (),
        WalError,
    >)
        requires
            old(self).inv(),
            old(self).wal().committed.len() + frames@.len() < 0xFFFF_FFFF,
        ensures
            final(self).inv(),
            !final(self).writable(),
            old(self).wal().read_txn ==> r == Err::<(), WalError>(WalError { code: WAL_BUSY })
                && final(self).wal() == old(self).wal(),
            !old(self).wal().read_txn ==> r == Ok::<(), WalError>(()) && final(self).wal() == (
            WalView {
                committed: old(self).wal().committed + frames_view(frames@),
                db_size: size_after,
                last_seen: (old(self).wal().committed.len() + frames@.len()) as nat,
                ..old(self).wal()
            }),
    {
        if self.inner.read_txn {
            return Err(WalError::busy());
        }
        let mut frames = frames;
        let ghost frames0 = frames@;
        proof {
            lemma_frames_view_add(self.inner.committed@, frames@);
        }
        self.inner.committed.append(&mut frames);
        self.inner.db_size = size_after;
        self.inner.last_seen = self.inner.committed.len();
        proof {
            assert(final(self).wal() =~= (WalView {
                committed: old(self).wal().committed + frames_view(frames0),
                db_size: size_after,
                last_seen: (old(self).wal().committed.len() + frames0.len()) as nat,
                ..old(self).wal()
            }));
        }
        Ok(())
    }
}

impl Wal for ReplicaWal {
    closed spec fn wal(&self) -> WalView {
        self.inner.wal()
    }

    closed spec fn inv(&self) -> bool {
        &&& self.inner.inv()
        &&& !self.inner.wal().write_txn
        &&& self.inner.wal().pending.len() == 0
    }

    open spec fn writable(&self) -> bool {
        false
    }

    proof fn inv_implies_wf(&self) {
    }

    fn begin_read_txn(&mut self) -> (r: Result<bool, WalError>) {
        self.inner.begin_read_txn()
    }

    fn end_read_txn(&mut self) {
        self.inner.end_read_txn()
    }

    fn begin_write_txn(&mut self) -> (r: Result<(), WalError>) {
        Err(WalError::readonly())
    }

    fn end_write_txn(&mut self) -> (r: Result<(), WalError>) {
        self.inner.end_write_txn()
    }

    fn find_frame(&mut self, page_no: u32) -> (r: Result<u32, WalError>) {
        self.inner.find_frame(page_no)
    }

    fn read_frame(&mut self, frame_no: u32, buf: &mut Vec<u8>) -> (r: Result<(), WalError>) {
        self.inner.read_frame(frame_no, buf)
    }

    fn db_size(&self) -> (r: u32) {
        self.inner.db_size()
    }

    fn insert_frames(&mut self, frames: Vec<Frame>, size_after: u32, is_commit: bool) -> (r: Result<
        (),
        WalError,
    >) {
        self.inner.insert_frames(frames, size_after, is_commit)
    }

    fn savepoint(&mut self) -> (mark: usize) {
        self.inner.savepoint()
    }

    fn savepoint_undo(&mut self, mark: usize) -> (r: Result<(), WalError>) {
        self.inner.savepoint_undo(mark)
    }

    fn undo(&mut self) -> (r: Result<(), WalError>) {
        self.inner.undo()
    }

    fn checkpoint(&mut self, mode: CheckpointMode) -> (r: Result<(u32, u32), WalError>) {
        self.inner.checkpoint(mode)
    }

    fn last_frame_index(&self) -> (r: u32) {
        self.inner.last_frame_index()
    }

    closed spec fn heap_memory(&self) -> bool {
        self.inner.heap_memory()
    }

    fn uses_heap_memory(&self) -> (r: bool) {
        self.inner.uses_heap_memory()
    }
}

} // verus!
