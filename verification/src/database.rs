//! Database role objects.
//!
//! A namespace's database is either a primary or a replica; the `Database`
//! contract is deliberately minimal — a connection maker and a teardown
//! entry point — so the namespace layer never special-cases role.
//! Role-specific behavior lives in the connection types, not here.

use vstd::prelude::*;
use crate::connection::{
    Connection, MakeConnection, MakePrimaryConnection, MakeWriteProxyConnection,
    TrackedConnection, LibSqlConnection, WriteProxyConnection, LoopbackTransport,
};
use crate::replication::{ReplicationLogger, ReplicationWal, LoggerView};
use crate::wal::{dup_frames, frames_view, Frame, MemWal, WalError};

verus! {

/// The connection type of a primary database.
pub type PrimaryConnection = TrackedConnection<LibSqlConnection<ReplicationWal<MemWal>>>;

/// The connection type of a replica database.
pub type ReplicaConnection = TrackedConnection<WriteProxyConnection<LoopbackTransport>>;

/// The minimal capability both roles provide: a shareable connection maker
/// bound to one fixed connection type, and graceful teardown. `shutdown` is
/// safe to call any number of times, with or without connections ever
/// created, and never blocks on in-flight connections (draining them is the
/// caller's concern).
pub trait Database: Sized {
    /// The connection type of the database.
    type Connection: Connection;

    type Maker: MakeConnection<Connection = Self::Connection>;

    /// Whether teardown has been signalled to everything that watches for
    /// it. A role with no durable log has nothing to signal and counts as
    /// closed from the start.
    spec fn closed(&self) -> bool;

    /// The maker this database hands out.
    spec fn maker(&self) -> Self::Maker;

    /// The replication-log state this role owns. A replica owns no durable
    /// log: its log state is empty and closed from the start.
    spec fn log_state(&self) -> LoggerView;

    fn connection_maker(&self) -> (r: Self::Maker)
        ensures
            r == self.maker(),
    ;

    /// Graceful teardown: the closed-signal moves to closed and nothing
    /// else of the role changes — the maker stays, and the replication log
    /// keeps every frame. Never blocks on in-flight connections (draining
    /// them is the caller's concern) and safe to call any number of times.
    fn shutdown(&mut self)
        ensures
            final(self).closed(),
            final(self).maker() == old(self).maker(),
            final(self).log_state() == (LoggerView {
                closed: true,
                ..old(self).log_state()
            }),
    ;
}

/// A replica database: its connections proxy writes to the primary, and it
/// owns no durable log and no flush obligation, so `shutdown` is a no-op —
/// the proxy connection layer handles its own stream teardown.
pub struct ReplicaDatabase {
    pub connection_maker: MakeWriteProxyConnection,
}

impl Database for ReplicaDatabase {
    type Connection = ReplicaConnection;

    type Maker = MakeWriteProxyConnection;

    open spec fn closed(&self) -> bool {
        true
    }

    open spec fn maker(&self) -> MakeWriteProxyConnection {
        self.connection_maker
    }

    open spec fn log_state(&self) -> LoggerView {
        LoggerView {
            log: Seq::<crate::wal::FrameView>::empty(),
            buffered: Seq::<crate::wal::FrameView>::empty(),
            closed: true,
        }
    }

    fn connection_maker(&self) -> (r: Self::Maker) {
        self.connection_maker
    }

    fn shutdown(&mut self) {
        proof {
            assert(self.log_state() =~= (LoggerView { closed: true, ..self.log_state() }));
        }
    }
}

/// A primary database: owns the namespace's replication logger, fed one
/// committed transaction at a time through [`PrimaryDatabase::commit`];
/// `shutdown` signals the logger's closed-flag so that in-flight
/// replication stream followers observe closure and terminate cleanly
/// rather than erroring.
pub struct PrimaryDatabase {
    pub logger: ReplicationLogger,
    pub connection_maker: MakePrimaryConnection,
}

impl Database for PrimaryDatabase {
    type Connection = PrimaryConnection;

    type Maker = MakePrimaryConnection;

    open spec fn closed(&self) -> bool {
        self.logger@.closed
    }

    open spec fn maker(&self) -> MakePrimaryConnection {
        self.connection_maker
    }

    open spec fn log_state(&self) -> LoggerView {
        self.logger@
    }

    fn connection_maker(&self) -> (r: Self::Maker) {
        self.connection_maker
    }

    fn shutdown(&mut self) {
        self.logger.close();
    }
}

impl PrimaryDatabase {
    /// Execute one write transaction of this namespace through `conn`, a
    /// connection this database's maker produced: the connection's capture
    /// WAL commits and mirrors the batch, and the same transaction is
    /// appended — in commit order, which exclusive access to the database
    /// serializes — to this database's replication log, the one its
    /// followers subscribe to and `shutdown` closes.
    pub fn commit(
        &mut self,
        conn: &mut PrimaryConnection,
        frames: Vec<Frame>,
        size_after: u32,
    ) -> (r: Result<u32, WalError>)
        requires
            old(conn).inv(),
            old(conn).writes_locally(),
            old(conn).readable().len() + frames@.len() < 0xFFFF_FFFF,
        ensures
            final(self).maker() == old(self).maker(),
            final(self).closed() == old(self).closed(),
            final(self).log_state() == (LoggerView {
                log: old(self).log_state().log + frames_view(frames@),
                ..old(self).log_state()
            }),
            final(conn).inv(),
            final(conn).writes_locally(),
            final(conn).readable() == old(conn).readable() + frames_view(frames@),
            r == Ok::<u32, WalError>((old(conn).readable().len() + frames@.len()) as u32),
    {
        let copy = dup_frames(&frames);
        let r = conn.write(frames, size_after);
        self.logger.append_committed(copy);
        r
    }
}

/// Shutdown is idempotent: signalling closure a second time leaves the
/// closed-signal observably closed and changes nothing else of the logger.
pub proof fn lemma_shutdown_idempotent(v: LoggerView)
    ensures
        ({
            let once = LoggerView { closed: true, ..v };
            let twice = LoggerView { closed: true, ..once };
            &&& once.closed
            &&& twice == once
        }),
{
}

} // verus!
