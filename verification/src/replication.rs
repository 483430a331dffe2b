//! Primary-side replication: the logger that accumulates committed frames
//! in commit order, and the capture WAL that mirrors every committed
//! transaction into it after the underlying insert succeeds.

use vstd::prelude::*;
use crate::channels::{watch_sender_new, watch_send_replace, watch_subscribe};
use crate::wal::{
    Wal, WalView, WalError, Frame, FrameView, CheckpointMode, frames_view, dup_frames,
    lemma_frames_view_add,
};

verus! {

/// Mathematical state of a [`ReplicationLogger`]: the durable replication
/// log in commit order, the frames of the transaction being captured, and
/// the closed flag.
#[verifier::ext_equal]
pub ghost struct LoggerView {
    pub log: Seq<FrameView>,
    pub buffered: Seq<FrameView>,
    pub closed: bool,
}

/// The per-namespace replication log of a primary. Committed frame batches
/// are appended in commit order and shipped to replicas by followers that
/// are outside this crate; a broadcast closed-signal tells in-flight
/// followers to terminate cleanly at shutdown.
pub struct ReplicationLogger {
    frames: Vec<Frame>,
    buffered: Vec<Frame>,
    closed: bool,
    closed_signal: tokio::sync::watch::Sender<bool>,
}

impl View for ReplicationLogger {
    type V = LoggerView;

    closed spec fn view(&self) -> LoggerView {
        LoggerView {
            log: frames_view(self.frames@),
            buffered: frames_view(self.buffered@),
            closed: self.closed,
        }
    }
}

impl ReplicationLogger {
    pub fn new() -> (r: Self)
        ensures
            r@ == (LoggerView {
                log: Seq::<FrameView>::empty(),
                buffered: Seq::<FrameView>::empty(),
                closed: false,
            }),
    {
        let r = ReplicationLogger {
            frames: Vec::new(),
            buffered: Vec::new(),
            closed: false,
            closed_signal: watch_sender_new(false),
        };
        proof {
            assert(r@ =~= (LoggerView {
                log: Seq::<FrameView>::empty(),
                buffered: Seq::<FrameView>::empty(),
                closed: false,
            }));
        }
        r
    }

    /// Hold one batch of a transaction's frames until the transaction
    /// commits or rolls back.
    pub fn buffer_frames(&mut self, frames: Vec<Frame>)
        ensures
            final(self)@ == (LoggerView {
                buffered: old(self)@.buffered + frames_view(frames@),
                ..old(self)@
            }),
    {
        let mut frames = frames;
        let ghost frames0 = frames@;
        proof {
            lemma_frames_view_add(self.buffered@, frames@);
        }
        self.buffered.append(&mut frames);
        proof {
            assert(final(self)@ =~= (LoggerView {
                buffered: old(self)@.buffered + frames_view(frames0),
                ..old(self)@
            }));
        }
    }

    /// A transaction committed: everything buffered for it, then its final
    /// batch, becomes part of the log, at the end, in order.
    pub fn commit_buffered(&mut self, frames: Vec<Frame>)
        ensures
            final(self)@ == (LoggerView {
                log: old(self)@.log + old(self)@.buffered + frames_view(frames@),
                buffered: Seq::<FrameView>::empty(),
                ..old(self)@
            }),
    {
        let mut frames = frames;
        let ghost frames0 = frames@;
        proof {
            lemma_frames_view_add(self.frames@, self.buffered@);
        }
        self.frames.append(&mut self.buffered);
        proof {
            lemma_frames_view_add(self.frames@, frames@);
        }
        self.frames.append(&mut frames);
        proof {
            assert(final(self)@ =~= (LoggerView {
                log: old(self)@.log + old(self)@.buffered + frames_view(frames0),
                buffered: Seq::<FrameView>::empty(),
                ..old(self)@
            }));
        }
    }

    /// Append one committed transaction's frames to the log, at the end, in
    /// order, leaving the capture buffer and the closed flag alone. `&mut`
    /// access serializes appends: commit order is append order.
    pub fn append_committed(&mut self, frames: Vec<Frame>)
        ensures
            final(self)@ == (LoggerView {
                log: old(self)@.log + frames_view(frames@),
                ..old(self)@
            }),
    {
        let mut frames = frames;
        let ghost frames0 = frames@;
        proof {
            lemma_frames_view_add(self.frames@, frames@);
        }
        self.frames.append(&mut frames);
        proof {
            assert(final(self)@ =~= (LoggerView {
                log: old(self)@.log + frames_view(frames0),
                ..old(self)@
            }));
        }
    }

    /// A transaction rolled back entirely: nothing buffered for it reaches
    /// the log.
    pub fn rollback_buffered(&mut self)
        ensures
            final(self)@ == (LoggerView { buffered: Seq::<FrameView>::empty(), ..old(self)@ }),
    {
        self.buffered.clear();
        proof {
            assert(final(self)@ =~= (LoggerView {
                buffered: Seq::<FrameView>::empty(),
                ..old(self)@
            }));
        }
    }

    /// A transaction rolled back to a savepoint: buffered frames past the
    /// mark are dropped.
    pub fn truncate_buffered(&mut self, mark: usize)
        requires
            mark <= old(self)@.buffered.len(),
        ensures
            final(self)@ == (LoggerView {
                buffered: old(self)@.buffered.take(mark as int),
                ..old(self)@
            }),
    {
        self.buffered.truncate(mark);
        proof {
            crate::wal::lemma_frames_view_take(old(self).buffered@, mark as int);
            assert(final(self)@ =~= (LoggerView {
                buffered: old(self)@.buffered.take(mark as int),
                ..old(self)@
            }));
        }
    }

    /// Signal closure to every follower of this log. Safe to call any
    /// number of times: the flag only ever moves to closed and stays there.
    pub fn close(&mut self)
        ensures
            final(self)@ == (LoggerView { closed: true, ..old(self)@ }),
    {
        self.closed = true;
        watch_send_replace(&self.closed_signal, true);
        proof {
            assert(final(self)@ =~= (LoggerView { closed: true, ..old(self)@ }));
        }
    }

    pub fn is_closed(&self) -> (r: bool)
        ensures
            r == self@.closed,
    {
        self.closed
    }

    /// The replication log so far, in commit order.
    pub fn log_frames(&self) -> (r: &Vec<Frame>)
        ensures
            frames_view(r@) == self@.log,
    {
        &self.frames
    }

    /// A follower's view of the closed-signal: observes the state as of
    /// subscription and every change after it.
    pub fn subscribe_closed(&self) -> tokio::sync::watch::Receiver<bool> {
        watch_subscribe(&self.closed_signal)
    }
}

/// `a` is the last stretch of `b`.
pub open spec fn suffix_of(a: Seq<FrameView>, b: Seq<FrameView>) -> bool {
    a.len() <= b.len() && b.skip(b.len() - a.len()) == a
}

pub proof fn lemma_suffix_append(a: Seq<FrameView>, b: Seq<FrameView>, x: Seq<FrameView>)
    requires
        suffix_of(a, b),
    ensures
        suffix_of(a + x, b + x),
{
    assert((b + x).skip((b + x).len() - (a + x).len()) =~= a + x);
}

/// Frame insertion order equals transaction commit order: when one
/// transaction's frames enter the log before another's, every frame of the
/// first stands at a smaller log position (`log0.len() + i`, below
/// `log0.len() + t1.len()`) than every frame of the second, and both keep
/// their internal order.
pub proof fn lemma_commit_order(log0: Seq<FrameView>, t1: Seq<FrameView>, t2: Seq<FrameView>)
    ensures
        forall|i: int|
            0 <= i < t1.len() ==> (log0 + t1 + t2)[log0.len() + i] == t1[i],
        forall|j: int|
            0 <= j < t2.len() ==> (log0 + t1 + t2)[log0.len() + t1.len() + j] == t2[j],
{
}

/// The primary-side capture WAL: delegates every operation to the WAL it
/// wraps, and mirrors every committed transaction's frames into a
/// [`ReplicationLogger`] after the underlying insert succeeds — preserving
/// commit order exactly.
pub struct ReplicationWal<W: Wal> {
    inner: W,
    logger: ReplicationLogger,
}

impl<W: Wal> ReplicationWal<W> {
    /// The replication log captured so far, in commit order.
    pub closed spec fn captured_log(&self) -> Seq<FrameView> {
        self.logger@.log
    }

    pub closed spec fn logger_view(&self) -> LoggerView {
        self.logger@
    }

    /// Every frame the wrapped WAL holds as committed stands in the
    /// captured log, at the end, in commit order.
    pub proof fn lemma_captures(&self)
        requires
            self.inv(),
        ensures
            suffix_of(self.wal().committed, self.captured_log()),
            self.logger_view().buffered == self.wal().pending,
    {
    }

    /// Start capturing over a WAL whose log is still empty, so that the
    /// replication log misses no commit.
    pub fn new(inner: W) -> (r: Self)
        requires
            inner.inv(),
            inner.wal().committed.len() == 0,
            inner.wal().pending.len() == 0,
        ensures
            r.inv(),
            r.wal() == inner.wal(),
            r.writable() == inner.writable(),
            r.captured_log() == Seq::<FrameView>::empty(),
            !r.logger_view().closed,
    {
        let r = ReplicationWal { inner, logger: ReplicationLogger::new() };
        proof {
            assert(r.wal().committed =~= Seq::<FrameView>::empty());
            assert(r.wal().pending =~= Seq::<FrameView>::empty());
            assert(r.captured_log().skip(0) =~= r.captured_log());
        }
        r
    }

    pub fn logger(&self) -> (r: &ReplicationLogger)
        ensures
            r@ == self.logger_view(),
    {
        &self.logger
    }

    /// Commit the open transaction: the batch is inserted into the wrapped
    /// WAL as its final frames, and on success the whole transaction —
    /// buffered frames, then this batch — is appended to the replication
    /// log, preserving commit order.
    pub fn commit_frames(&mut self, frames: Vec<Frame>, size_after: u32) -> (r: Result<
        (),
        WalError,
    >)
        requires
            old(self).inv(),
            old(self).wal().committed.len() + old(self).wal().pending.len() + frames@.len()
                < 0xFFFF_FFFF,
        ensures
            final(self).inv(),
            final(self).writable() == old(self).writable(),
            !old(self).wal().write_txn ==> r == Err::<(), WalError>(
                WalError { code: crate::wal::WAL_MISUSE },
            ) && final(self).wal() == old(self).wal() && final(self).captured_log() == old(
                self,
            ).captured_log(),
            old(self).wal().write_txn ==> r == Ok::<(), WalError>(()) && final(self).wal() == (
            WalView {
                committed: old(self).wal().committed + old(self).wal().pending + frames_view(
                    frames@,
                ),
                pending: Seq::<FrameView>::empty(),
                db_size: size_after,
                last_seen: (old(self).wal().committed.len() + old(self).wal().pending.len()
                    + frames@.len()) as nat,
                ..old(self).wal()
            }) && final(self).captured_log() == old(self).captured_log() + old(
                self,
            ).wal().pending + frames_view(frames@),
    {
        let copy = dup_frames(&frames);
        match self.inner.insert_frames(frames, size_after, true) {
            Ok(()) => {
                proof {
                    let tail = old(self).wal().pending + frames_view(copy@);
                    lemma_suffix_append(
                        old(self).wal().committed,
                        old(self).captured_log(),
                        tail,
                    );
                    assert(old(self).wal().committed + tail =~= old(self).wal().committed + old(
                        self,
                    ).wal().pending + frames_view(copy@));
                    assert(old(self).captured_log() + tail =~= old(self).captured_log() + old(
                        self,
                    ).wal().pending + frames_view(copy@));
                }
                self.logger.commit_buffered(copy);
                Ok(())
            },
            Err(e) => Err(e),
        }
    }
}

impl<W: Wal> Wal for ReplicationWal<W> {
    closed spec fn wal(&self) -> WalView {
        self.inner.wal()
    }

    closed spec fn inv(&self) -> bool {
        &&& self.inner.inv()
        &&& self.logger@.buffered == self.inner.wal().pending
        &&& suffix_of(self.inner.wal().committed, self.logger@.log)
    }

    closed spec fn writable(&self) -> bool {
        self.inner.writable()
    }

    proof fn inv_implies_wf(&self) {
        self.inner.inv_implies_wf();
    }

    fn begin_read_txn(&mut self) -> (r: Result<bool, WalError>) {
        self.inner.begin_read_txn()
    }

    fn end_read_txn(&mut self) {
        self.inner.end_read_txn()
    }

    fn begin_write_txn(&mut self) -> (r: Result<(), WalError>) {
        self.inner.begin_write_txn()
    }

    fn end_write_txn(&mut self) -> (r: Result<(), WalError>) {
        let r = self.inner.end_write_txn();
        self.logger.rollback_buffered();
        r
    }

    fn find_frame(&mut self, page_no: u32) -> (r: Result<u32, WalError>) {
        self.inner.find_frame(page_no)
    }

    fn read_frame(&mut self, frame_no: u32, buf: &mut Vec<u8>) -> (r: Result<(), WalError>) {
        self.inner.read_frame(frame_no, buf)
    }

    fn db_size(&self) -> (r: u32) {
        self.inner.db_size()
    }

    fn insert_frames(&mut self, frames: Vec<Frame>, size_after: u32, is_commit: bool) -> (r: Result<
        (),
        WalError,
    >) {
        if is_commit {
            self.commit_frames(frames, size_after)
        } else {
            let copy = dup_frames(&frames);
            match self.inner.insert_frames(frames, size_after, false) {
                Ok(()) => {
                    self.logger.buffer_frames(copy);
                    Ok(())
                },
                Err(e) => Err(e),
            }
        }
    }

    fn savepoint(&mut self) -> (mark: usize) {
        self.inner.savepoint()
    }

    fn savepoint_undo(&mut self, mark: usize) -> (r: Result<(), WalError>) {
        match self.inner.savepoint_undo(mark) {
            Ok(()) => {
                self.logger.truncate_buffered(mark);
                Ok(())
            },
            Err(e) => Err(e),
        }
    }

    fn undo(&mut self) -> (r: Result<(), WalError>) {
        let r = self.inner.undo();
        self.logger.rollback_buffered();
        r
    }

    fn checkpoint(&mut self, mode: CheckpointMode) -> (r: Result<(u32, u32), WalError>) {
        let r = self.inner.checkpoint(mode);
        proof {
            if self.inner.wal().committed.len() == 0 {
                assert(self.logger@.log.skip(self.logger@.log.len() as int) =~= Seq::<
                    FrameView,
                >::empty());
            }
        }
        r
    }

    fn last_frame_index(&self) -> (r: u32) {
        self.inner.last_frame_index()
    }

    closed spec fn heap_memory(&self) -> bool {
        self.inner.heap_memory()
    }

    fn uses_heap_memory(&self) -> (r: bool) {
        self.inner.uses_heap_memory()
    }
}

} // verus!
