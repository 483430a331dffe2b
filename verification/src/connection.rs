//! Connections and connection makers.
//!
//! A [`Connection`] serves page reads from the frames committed locally and
//! accepts page writes; [`LibSqlConnection`] applies both against its own
//! WAL, while [`WriteProxyConnection`] — the replica side — serves reads
//! from locally replayed frames and forwards every write through a
//! [`WriteTransport`] to the primary, returning only once the primary's
//! typed result arrives. [`TrackedConnection`] is the decorator every maker
//! wraps a role-specific connection in.

use vstd::prelude::*;
use crate::wal::{
    Wal, WalError, WalView, Frame, FrameView, frames_view, frame_for_page,
    lemma_frame_for_page_in_range, MemWal, ReplicaWal,
};
use crate::replication::ReplicationWal;

verus! {

/// The saturation point of a tracked connection's operation counter.
pub const OP_COUNT_MAX: u64 = 0xFFFF_FFFF_FFFF_FFFF;

/// The uniform contract every connection presents, whatever backend stands
/// behind it. `readable()` is the local committed log reads are served
/// from; `writes_locally()` tells whether a write lands in that log (a
/// primary-backed connection) or leaves it untouched and travels to the
/// primary instead (a write-proxy connection); `ops()` counts operations
/// for tracking decorators.
pub trait Connection: Sized {
    spec fn inv(&self) -> bool;

    spec fn readable(&self) -> Seq<FrameView>;

    spec fn writes_locally(&self) -> bool;

    spec fn ops(&self) -> nat;

    /// Read the newest committed payload of `page_no` from local state into
    /// `buf`; reports whether the page was found. Reads never fail and
    /// never change local state.
    fn read_page(&mut self, page_no: u32, buf: &mut Vec<u8>) -> (r: Result<bool, WalError>)
        requires
            old(self).inv(),
        ensures
            final(self).inv(),
            final(self).readable() == old(self).readable(),
            final(self).writes_locally() == old(self).writes_locally(),
            final(self).ops() == old(self).ops() + 1,
            r == Ok::<bool, WalError>(frame_for_page(old(self).readable(), page_no) > 0),
            frame_for_page(old(self).readable(), page_no) > 0 ==> final(buf)@ == old(self).readable()[frame_for_page(old(self).readable(), page_no) - 1].data,
            frame_for_page(old(self).readable(), page_no) <= 0 ==> final(buf)@ == old(buf)@,
    ;

    /// Commit `frames` as one write transaction with `size_after` as the
    /// new database size, returning the log's frame count after the commit.
    /// On a locally-writing connection the local log grows by exactly this
    /// batch and success is owed; on a write-proxy connection local state
    /// never changes and the result is the primary's answer.
    fn write(&mut self, frames: Vec<Frame>, size_after: u32) -> (r: Result<u32, WalError>)
        requires
            old(self).inv(),
            old(self).writes_locally() ==> old(self).readable().len() + frames@.len()
                < 0xFFFF_FFFF,
        ensures
            final(self).inv(),
            final(self).writes_locally() == old(self).writes_locally(),
            final(self).ops() == old(self).ops() + 1,
            old(self).writes_locally() ==> r == Ok::<u32, WalError>(
                (old(self).readable().len() + frames@.len()) as u32,
            ) && final(self).readable() == old(self).readable() + frames_view(frames@),
            !old(self).writes_locally() ==> final(self).readable() == old(self).readable(),
    ;
}

/// A direct WAL-backed connection: reads resolve pages through the WAL's
/// snapshot, writes commit through `insert_frames` — so with a capture WAL
/// behind it, every committed write is mirrored to the replication log.
pub struct LibSqlConnection<W: Wal> {
    wal: W,
    ops: Ghost<nat>,
}

impl<W: Wal> LibSqlConnection<W> {
    /// The connection's WAL must be at rest: no open transaction, nothing
    /// pending.
    pub open spec fn wal_at_rest(v: WalView) -> bool {
        &&& !v.read_txn
        &&& !v.write_txn
        &&& v.pending.len() == 0
    }

    pub fn new(wal: W) -> (r: Self)
        requires
            wal.inv(),
            Self::wal_at_rest(wal.wal()),
        ensures
            r.inv(),
            r.readable() == wal.wal().committed,
            r.writes_locally() == wal.writable(),
            r.ops() == 0,
    {
        LibSqlConnection { wal, ops: Ghost(0) }
    }

    /// Frames committed on this connection's WAL.
    pub fn committed_count(&self) -> (r: u32)
        requires
            self.inv(),
        ensures
            r == self.readable().len(),
    {
        self.wal.last_frame_index()
    }
}

impl<W: Wal> Connection for LibSqlConnection<W> {
    closed spec fn inv(&self) -> bool {
        &&& self.wal.inv()
        &&& Self::wal_at_rest(self.wal.wal())
    }

    closed spec fn readable(&self) -> Seq<FrameView> {
        self.wal.wal().committed
    }

    closed spec fn writes_locally(&self) -> bool {
        self.wal.writable()
    }

    closed spec fn ops(&self) -> nat {
        self.ops@
    }

    fn read_page(&mut self, page_no: u32, buf: &mut Vec<u8>) -> (r: Result<bool, WalError>) {
        proof {
            self.wal.inv_implies_wf();
        }
        let ghost log = self.wal.wal().committed;
        match self.wal.begin_read_txn() {
            Ok(_) => {},
            Err(e) => {
                proof {
                    assert(false);
                }
                return Err(e);
            },
        }
        proof {
            assert(self.wal.wal().committed.take(self.wal.wal().last_seen as int) =~= log);
        }
        let frame_no = match self.wal.find_frame(page_no) {
            Ok(f) => f,
            Err(e) => {
                proof {
                    assert(false);
                }
                return Err(e);
            },
        };
        proof {
            lemma_frame_for_page_in_range(log, page_no);
        }
        let found = frame_no != 0;
        if found {
            match self.wal.read_frame(frame_no, buf) {
                Ok(()) => {},
                Err(e) => {
                    proof {
                        assert(false);
                    }
                    return Err(e);
                },
            }
        }
        self.wal.end_read_txn();
        self.ops = Ghost(self.ops@ + 1);
        Ok(found)
    }

    fn write(&mut self, frames: Vec<Frame>, size_after: u32) -> (r: Result<u32, WalError>) {
        proof {
            self.wal.inv_implies_wf();
        }
        let ghost log = self.wal.wal().committed;
        match self.wal.begin_read_txn() {
            Ok(_) => {},
            Err(e) => {
                proof {
                    assert(false);
                }
                return Err(e);
            },
        }
        match self.wal.begin_write_txn() {
            Ok(()) => {},
            Err(e) => {
                self.wal.end_read_txn();
                self.ops = Ghost(self.ops@ + 1);
                return Err(e);
            },
        }
        match self.wal.insert_frames(frames, size_after, true) {
            Ok(()) => {},
            Err(e) => {
                proof {
                    assert(false);
                }
                return Err(e);
            },
        }
        proof {
            assert(self.wal.wal().committed =~= log + frames_view(frames@));
        }
        match self.wal.end_write_txn() {
            Ok(()) => {},
            Err(e) => {
                proof {
                    assert(false);
                }
                return Err(e);
            },
        }
        self.wal.end_read_txn();
        let ack = self.wal.last_frame_index();
        self.ops = Ghost(self.ops@ + 1);
        Ok(ack)
    }
}

impl LibSqlConnection<ReplicaWal> {
    /// Replay one batch of frames shipped from the primary into the local
    /// replica state this connection reads from.
    pub fn apply_frames(&mut self, frames: Vec<Frame>, size_after: u32) -> (r: Result<
        (),
        WalError,
    >)
        requires
            old(self).inv(),
            old(self).readable().len() + frames@.len() < 0xFFFF_FFFF,
        ensures
            final(self).inv(),
            final(self).ops() == old(self).ops(),
            final(self).writes_locally() == old(self).writes_locally(),
            r == Ok::<(), WalError>(()),
            final(self).readable() == old(self).readable() + frames_view(frames@),
    {
        match self.wal.inject_frames(frames, size_after) {
            Ok(()) => Ok(()),
            Err(e) => {
                proof {
                    assert(false);
                }
                Err(e)
            },
        }
    }
}

/// The remote-call transport a write-proxy connection forwards writes
/// through: "execute this write batch against the primary and await its
/// typed result". The embedding runtime implements it over its stream to
/// the remote primary; [`LoopbackTransport`] implements it in-process.
pub trait WriteTransport: Sized {
    spec fn inv(&self) -> bool;

    /// The primary's committed log, as the peer of this transport holds it.
    spec fn primary_log(&self) -> Seq<FrameView>;

    /// Awaits the primary's response: on `Ok(ack)` the primary committed
    /// exactly this batch at the end of its log, and `ack` is the log's
    /// frame count after the commit; on `Err` (a stream failure or the
    /// primary's own typed rejection, surfaced unchanged and not retried
    /// here) the primary's log did not take the batch.
    fn execute_write(&mut self, frames: Vec<Frame>, size_after: u32) -> (r: Result<u32, WalError>)
        requires
            old(self).inv(),
        ensures
            final(self).inv(),
            r matches Ok(ack) ==> final(self).primary_log() == old(self).primary_log()
                + frames_view(frames@) && ack == final(self).primary_log().len(),
            r is Err ==> final(self).primary_log() == old(self).primary_log(),
    ;
}

/// An in-process transport: the "remote" primary is a primary-backed
/// connection owned directly. Stands in for the wire transport, which is an
/// external collaborator of this crate.
pub struct LoopbackTransport {
    primary: LibSqlConnection<ReplicationWal<MemWal>>,
}

impl LoopbackTransport {
    pub fn new() -> (r: Self)
        ensures
            r.inv(),
            r.primary_log() == Seq::<FrameView>::empty(),
    {
        LoopbackTransport {
            primary: LibSqlConnection::new(ReplicationWal::new(MemWal::new())),
        }
    }

    /// The primary-backed connection behind this transport.
    pub fn primary(&self) -> (r: &LibSqlConnection<ReplicationWal<MemWal>>)
        requires
            self.inv(),
        ensures
            r.readable() == self.primary_log(),
            r.inv(),
    {
        &self.primary
    }
}

impl WriteTransport for LoopbackTransport {
    closed spec fn inv(&self) -> bool {
        &&& self.primary.inv()
        &&& self.primary.writes_locally()
    }

    closed spec fn primary_log(&self) -> Seq<FrameView> {
        self.primary.readable()
    }

    fn execute_write(&mut self, frames: Vec<Frame>, size_after: u32) -> (r: Result<u32, WalError>)
        ensures
            old(self).primary_log().len() + frames@.len() < 0xFFFF_FFFF ==> r is Ok,
    {
        if frames.len() >= 0xFFFF_FFFF {
            return Err(WalError::busy());
        }
        let cur = self.primary.committed_count();
        if (cur as u64) + (frames.len() as u64) >= 0xFFFF_FFFF {
            return Err(WalError::busy());
        }
        self.primary.write(frames, size_after)
    }
}

/// The replica-side connection: reads execute locally against replayed
/// state; writes are serialized to the primary through the transport and
/// return only once the primary's response — success or typed failure — is
/// back. There is no fire-and-forget write, and a write never touches the
/// local replayed state (the change arrives later as shipped frames).
pub struct WriteProxyConnection<S: WriteTransport> {
    local: LibSqlConnection<ReplicaWal>,
    stream: S,
    ops: Ghost<nat>,
}

impl<S: WriteTransport> WriteProxyConnection<S> {
    pub closed spec fn transport(&self) -> S {
        self.stream
    }

    pub fn new(stream: S) -> (r: Self)
        requires
            stream.inv(),
        ensures
            r.inv(),
            r.readable() == Seq::<FrameView>::empty(),
            !r.writes_locally(),
            r.ops() == 0,
            r.transport() == stream,
    {
        let local = LibSqlConnection::new(ReplicaWal::new());
        proof {
            assert(local.readable() =~= Seq::<FrameView>::empty());
        }
        WriteProxyConnection { local, stream, ops: Ghost(0) }
    }

    /// The transport this connection forwards writes through.
    pub fn stream_ref(&self) -> (r: &S)
        requires
            self.inv(),
        ensures
            r == self.transport(),
            r.inv(),
    {
        &self.stream
    }

    /// Replay one batch of frames shipped from the primary.
    pub fn apply_frames(&mut self, frames: Vec<Frame>, size_after: u32) -> (r: Result<
        (),
        WalError,
    >)
        requires
            old(self).inv(),
            old(self).readable().len() + frames@.len() < 0xFFFF_FFFF,
        ensures
            final(self).inv(),
            final(self).ops() == old(self).ops(),
            final(self).transport() == old(self).transport(),
            r == Ok::<(), WalError>(()),
            final(self).readable() == old(self).readable() + frames_view(frames@),
    {
        self.local.apply_frames(frames, size_after)
    }

    /// Forward one write to the primary and await its result; the local
    /// replayed state does not move, whatever comes back.
    pub fn forward_write(&mut self, frames: Vec<Frame>, size_after: u32) -> (r: Result<
        u32,
        WalError,
    >)
        requires
            old(self).inv(),
        ensures
            final(self).inv(),
            final(self).readable() == old(self).readable(),
            final(self).ops() == old(self).ops() + 1,
            r matches Ok(ack) ==> final(self).transport().primary_log() == old(self).transport().primary_log() + frames_view(frames@) && ack == final(self).transport().primary_log().len(),
            r is Err ==> final(self).transport().primary_log() == old(self).transport().primary_log(),
    {
        let r = self.stream.execute_write(frames, size_after);
        self.ops = Ghost(self.ops@ + 1);
        r
    }
}

impl<S: WriteTransport> Connection for WriteProxyConnection<S> {
    closed spec fn inv(&self) -> bool {
        &&& self.local.inv()
        &&& self.stream.inv()
    }

    closed spec fn readable(&self) -> Seq<FrameView> {
        self.local.readable()
    }

    closed spec fn writes_locally(&self) -> bool {
        false
    }

    closed spec fn ops(&self) -> nat {
        self.ops@
    }

    /// A read is served locally, against the replayed state alone: the
    /// transport — and with it the primary — is untouched.
    fn read_page(&mut self, page_no: u32, buf: &mut Vec<u8>) -> (r: Result<bool, WalError>)
        ensures
            final(self).transport() == old(self).transport(),
    {
        let r = self.local.read_page(page_no, buf);
        self.ops = Ghost(self.ops@ + 1);
        r
    }

    /// A write is forwarded whole: on success the primary's log grew by
    /// exactly this batch; on failure it did not move. Local replayed state
    /// never changes either way (the trait contract above).
    fn write(&mut self, frames: Vec<Frame>, size_after: u32) -> (r: Result<u32, WalError>)
        ensures
            r matches Ok(ack) ==> final(self).transport().primary_log() == old(self).transport().primary_log() + frames_view(frames@) && ack == final(self).transport().primary_log().len(),
            r is Err ==> final(self).transport().primary_log() == old(self).transport().primary_log(),
    {
        self.forward_write(frames, size_after)
    }
}

/// The tracking decorator every connection maker wraps its role-specific
/// connection in: delegates both operations unchanged and counts them.
pub struct TrackedConnection<C: Connection> {
    inner: C,
    count: u64,
    total: Ghost<nat>,
}

impl<C: Connection> TrackedConnection<C> {
    spec fn count_ok(&self) -> bool {
        self.count == if self.total@ < OP_COUNT_MAX as nat {
            self.total@ as u64
        } else {
            OP_COUNT_MAX
        }
    }

    pub fn new(inner: C) -> (r: Self)
        requires
            inner.inv(),
        ensures
            r.inv(),
            r.readable() == inner.readable(),
            r.writes_locally() == inner.writes_locally(),
            r.ops() == 0,
    {
        TrackedConnection { inner, count: 0, total: Ghost(0) }
    }

    fn bump(&mut self)
        requires
            old(self).count_ok(),
        ensures
            final(self).count_ok(),
            final(self).total@ == old(self).total@ + 1,
            final(self).inner == old(self).inner,
    {
        if self.count < OP_COUNT_MAX {
            self.count = self.count + 1;
        }
        self.total = Ghost(self.total@ + 1);
    }

    /// Operations executed through this connection (saturating).
    pub fn op_count(&self) -> (r: u64)
        requires
            self.inv(),
        ensures
            self.ops() < OP_COUNT_MAX as nat ==> r == self.ops(),
            self.ops() >= OP_COUNT_MAX as nat ==> r == OP_COUNT_MAX,
    {
        self.count
    }
}

impl<C: Connection> Connection for TrackedConnection<C> {
    closed spec fn inv(&self) -> bool {
        &&& self.inner.inv()
        &&& self.count_ok()
    }

    closed spec fn readable(&self) -> Seq<FrameView> {
        self.inner.readable()
    }

    closed spec fn writes_locally(&self) -> bool {
        self.inner.writes_locally()
    }

    closed spec fn ops(&self) -> nat {
        self.total@
    }

    fn read_page(&mut self, page_no: u32, buf: &mut Vec<u8>) -> (r: Result<bool, WalError>) {
        self.bump();
        self.inner.read_page(page_no, buf)
    }

    fn write(&mut self, frames: Vec<Frame>, size_after: u32) -> (r: Result<u32, WalError>) {
        self.bump();
        self.inner.write(frames, size_after)
    }
}

/// A shareable factory bound to one fixed connection type. Every new
/// connection starts at rest, with nothing committed and nothing counted,
/// and applies writes locally exactly when the maker's role does.
pub trait MakeConnection: Sized {
    type Connection: Connection;

    /// Whether this maker's connections apply writes to their local log
    /// (a primary's do; a write-proxy maker's forward them instead).
    spec fn local_writes(&self) -> bool;

    fn create(&self) -> (r: Result<Self::Connection, WalError>)
        ensures
            r matches Ok(c) ==> c.inv() && c.readable() == Seq::<FrameView>::empty() && c.ops()
                == 0 && c.writes_locally() == self.local_writes(),
            r is Ok,
    ;
}

/// Maker of primary connections: direct WAL-backed connections whose WAL
/// captures every commit into a replication log.
#[derive(Clone, Copy)]
pub struct MakePrimaryConnection;

impl MakeConnection for MakePrimaryConnection {
    type Connection = TrackedConnection<LibSqlConnection<ReplicationWal<MemWal>>>;

    open spec fn local_writes(&self) -> bool {
        true
    }

    fn create(&self) -> (r: Result<Self::Connection, WalError>) {
        let wal = ReplicationWal::new(MemWal::new());
        let conn = LibSqlConnection::new(wal);
        proof {
            assert(conn.readable() =~= Seq::<FrameView>::empty());
        }
        Ok(TrackedConnection::new(conn))
    }
}

/// Maker of replica connections: write-proxy connections over an
/// in-process transport.
#[derive(Clone, Copy)]
pub struct MakeWriteProxyConnection;

impl MakeConnection for MakeWriteProxyConnection {
    type Connection = TrackedConnection<WriteProxyConnection<LoopbackTransport>>;

    open spec fn local_writes(&self) -> bool {
        false
    }

    fn create(&self) -> (r: Result<Self::Connection, WalError>) {
        let conn = WriteProxyConnection::new(LoopbackTransport::new());
        Ok(TrackedConnection::new(conn))
    }
}

} // verus!
