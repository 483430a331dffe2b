use wal_control::connection::{
    Connection, LoopbackTransport, MakeConnection, MakePrimaryConnection,
    MakeWriteProxyConnection, WriteProxyConnection,
};
use wal_control::database::{Database, PrimaryDatabase, ReplicaDatabase};
use wal_control::replication::{ReplicationLogger, ReplicationWal};
use wal_control::wal::{Frame, MemWal, Wal};

fn frame(page_no: u32, byte: u8) -> Frame {
    Frame::new(page_no, vec![byte; 4])
}

fn commit<W: Wal>(w: &mut W, frames: Vec<Frame>, size_after: u32) {
    w.begin_read_txn().unwrap();
    w.begin_write_txn().unwrap();
    w.insert_frames(frames, size_after, true).unwrap();
    w.end_write_txn().unwrap();
    w.end_read_txn();
}

#[test]
fn capture_preserves_commit_order() {
    let mut w = ReplicationWal::new(MemWal::new());
    commit(&mut w, vec![frame(1, 0x01), frame(2, 0x02)], 2);
    commit(&mut w, vec![frame(3, 0x03)], 3);

    let log = w.logger().log_frames();
    let pages: Vec<u32> = log.iter().map(|f| f.page_no).collect();
    assert_eq!(pages, vec![1, 2, 3]);
    assert_eq!(log[0].data, vec![0x01; 4]);
    assert_eq!(log[2].data, vec![0x03; 4]);
}

#[test]
fn rolled_back_frames_never_reach_the_log() {
    let mut w = ReplicationWal::new(MemWal::new());
    w.begin_read_txn().unwrap();
    w.begin_write_txn().unwrap();
    w.insert_frames(vec![frame(9, 0x99)], 0, false).unwrap();
    w.undo().unwrap();
    w.end_write_txn().unwrap();
    w.end_read_txn();
    assert_eq!(w.logger().log_frames().len(), 0);

    commit(&mut w, vec![frame(1, 0x01)], 1);
    let pages: Vec<u32> = w.logger().log_frames().iter().map(|f| f.page_no).collect();
    assert_eq!(pages, vec![1]);
}

#[test]
fn savepoint_rollback_is_not_captured() {
    let mut w = ReplicationWal::new(MemWal::new());
    w.begin_read_txn().unwrap();
    w.begin_write_txn().unwrap();
    w.insert_frames(vec![frame(1, 0x01)], 0, false).unwrap();
    let mark = w.savepoint();
    w.insert_frames(vec![frame(2, 0x02)], 0, false).unwrap();
    w.savepoint_undo(mark).unwrap();
    w.insert_frames(vec![frame(3, 0x03)], 2, true).unwrap();
    w.end_write_txn().unwrap();
    w.end_read_txn();

    let pages: Vec<u32> = w.logger().log_frames().iter().map(|f| f.page_no).collect();
    assert_eq!(pages, vec![1, 3]);
}

#[test]
fn primary_shutdown_twice_stays_closed() {
    let mut db = PrimaryDatabase {
        logger: ReplicationLogger::new(),
        connection_maker: MakePrimaryConnection,
    };
    let follower = db.logger.subscribe_closed();
    assert!(!db.logger.is_closed());
    assert!(!*follower.borrow());

    db.shutdown();
    assert!(db.logger.is_closed());
    assert!(*follower.borrow());

    db.shutdown();
    assert!(db.logger.is_closed());
    assert!(*follower.borrow());
}

#[test]
fn database_log_receives_commits_in_order() {
    let mut db = PrimaryDatabase {
        logger: ReplicationLogger::new(),
        connection_maker: MakePrimaryConnection,
    };
    let maker = db.connection_maker();
    let mut conn = maker.create().unwrap();

    assert_eq!(db.commit(&mut conn, vec![frame(1, 0x01), frame(2, 0x02)], 2), Ok(2));
    assert_eq!(db.commit(&mut conn, vec![frame(3, 0x03)], 3), Ok(3));

    // the role object's replication log holds both transactions, in commit
    // order, and reads on the connection see what was committed
    let pages: Vec<u32> = db.logger.log_frames().iter().map(|f| f.page_no).collect();
    assert_eq!(pages, vec![1, 2, 3]);
    let mut buf: Vec<u8> = Vec::new();
    assert_eq!(conn.read_page(3, &mut buf), Ok(true));
    assert_eq!(buf, vec![0x03; 4]);

    // shutdown closes the signal and keeps every frame
    db.shutdown();
    assert!(db.logger.is_closed());
    assert_eq!(db.logger.log_frames().len(), 3);
}

#[test]
fn replica_shutdown_is_safe_without_connections() {
    let mut db = ReplicaDatabase { connection_maker: MakeWriteProxyConnection };
    db.shutdown();
    db.shutdown();
    let maker = db.connection_maker();
    let conn = maker.create().unwrap();
    assert_eq!(conn.op_count(), 0);
}

#[test]
fn primary_connection_writes_locally_and_reads_back() {
    let db = PrimaryDatabase {
        logger: ReplicationLogger::new(),
        connection_maker: MakePrimaryConnection,
    };
    let maker = db.connection_maker();
    let mut conn = maker.create().unwrap();

    let payload = vec![0xEE, 0xFF];
    assert_eq!(conn.write(vec![Frame::new(5, payload.clone())], 1), Ok(1));
    let mut buf: Vec<u8> = Vec::new();
    assert_eq!(conn.read_page(5, &mut buf), Ok(true));
    assert_eq!(buf, payload);
    assert_eq!(conn.read_page(6, &mut buf), Ok(false));
    assert_eq!(conn.op_count(), 3);
}

#[test]
fn proxy_reads_locally_and_forwards_writes() {
    let mut conn = WriteProxyConnection::new(LoopbackTransport::new());

    // replayed frames are served locally
    conn.apply_frames(vec![frame(1, 0x11)], 1).unwrap();
    let mut buf: Vec<u8> = Vec::new();
    assert_eq!(conn.read_page(1, &mut buf), Ok(true));
    assert_eq!(buf, vec![0x11; 4]);

    // a write is forwarded, blocks for the primary's result, and does not
    // touch local state
    let ack = conn.write(vec![frame(2, 0x22)], 2).unwrap();
    assert_eq!(ack, 1);
    assert_eq!(conn.read_page(2, &mut buf), Ok(false));

    // the primary took exactly that write
    let primary = conn.stream_ref().primary();
    assert_eq!(primary.committed_count(), 1);
}

#[test]
fn proxy_maker_creates_fresh_connections() {
    let maker = MakeWriteProxyConnection;
    let mut conn = maker.create().unwrap();
    let mut buf: Vec<u8> = Vec::new();
    assert_eq!(conn.read_page(1, &mut buf), Ok(false));
    assert_eq!(conn.op_count(), 1);
}
