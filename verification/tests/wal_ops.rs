use wal_control::wal::{
    CheckpointMode, CreateWal, Frame, MemCreateWal, MemWal, ReplicaWal, Wal, WrapCreateWal,
    WrapWal, WAL_BUSY, WAL_MISUSE, WAL_READONLY,
};

fn frame(page_no: u32, byte: u8) -> Frame {
    Frame::new(page_no, vec![byte, byte, byte])
}

#[test]
fn commit_and_read_back() {
    let mut w = MemWal::new();
    assert_eq!(w.begin_read_txn(), Ok(false));
    assert_eq!(w.begin_write_txn(), Ok(()));
    assert_eq!(w.insert_frames(vec![frame(1, 0xAA), frame(2, 0xBB)], 2, true), Ok(()));
    assert_eq!(w.end_write_txn(), Ok(()));
    w.end_read_txn();

    assert_eq!(w.db_size(), 2);
    assert_eq!(w.last_frame_index(), 2);

    // the committing handle saw its own write, so nothing changed since
    assert_eq!(w.begin_read_txn(), Ok(false));
    assert_eq!(w.find_frame(1), Ok(1));
    assert_eq!(w.find_frame(2), Ok(2));
    assert_eq!(w.find_frame(3), Ok(0));
    let mut buf: Vec<u8> = Vec::new();
    assert_eq!(w.read_frame(2, &mut buf), Ok(()));
    assert_eq!(buf, vec![0xBB, 0xBB, 0xBB]);
    w.end_read_txn();
}

#[test]
fn newest_frame_wins_for_a_page() {
    let mut w = MemWal::new();
    w.begin_read_txn().unwrap();
    w.begin_write_txn().unwrap();
    w.insert_frames(vec![frame(1, 0x01)], 1, true).unwrap();
    w.end_write_txn().unwrap();
    w.end_read_txn();

    w.begin_read_txn().unwrap();
    w.begin_write_txn().unwrap();
    w.insert_frames(vec![frame(1, 0x02)], 1, true).unwrap();
    w.end_write_txn().unwrap();
    w.end_read_txn();

    w.begin_read_txn().unwrap();
    assert_eq!(w.find_frame(1), Ok(2));
    let mut buf: Vec<u8> = Vec::new();
    w.read_frame(2, &mut buf).unwrap();
    assert_eq!(buf, vec![0x02, 0x02, 0x02]);
    w.end_read_txn();
}

#[test]
fn misuse_error_codes_round_trip() {
    let mut w = MemWal::new();
    // write transaction without a read transaction
    let e = w.begin_write_txn().unwrap_err();
    assert_eq!(e.code, WAL_MISUSE);
    // frame insertion without a write transaction
    let e = w.insert_frames(vec![frame(1, 0)], 1, true).unwrap_err();
    assert_eq!(e.code, WAL_MISUSE);
    // frame numbers are 1-based and bounded by the log
    let mut buf: Vec<u8> = Vec::new();
    assert_eq!(w.read_frame(0, &mut buf).unwrap_err().code, WAL_MISUSE);
    assert_eq!(w.read_frame(5, &mut buf).unwrap_err().code, WAL_MISUSE);
}

#[test]
fn savepoint_rolls_back_to_the_mark() {
    let mut w = MemWal::new();
    w.begin_read_txn().unwrap();
    w.begin_write_txn().unwrap();
    w.insert_frames(vec![frame(1, 0x01)], 0, false).unwrap();
    let mark = w.savepoint();
    assert_eq!(mark, 1);
    w.insert_frames(vec![frame(2, 0x02), frame(3, 0x03)], 0, false).unwrap();
    assert_eq!(w.savepoint_undo(9), Err(wal_control::wal::WalError { code: WAL_MISUSE }));
    assert_eq!(w.savepoint_undo(mark), Ok(()));
    w.insert_frames(vec![frame(4, 0x04)], 2, true).unwrap();
    w.end_write_txn().unwrap();
    w.end_read_txn();

    // only the first batch and the final one were committed
    assert_eq!(w.last_frame_index(), 2);
    w.begin_read_txn().unwrap();
    assert_eq!(w.find_frame(1), Ok(1));
    assert_eq!(w.find_frame(2), Ok(0));
    assert_eq!(w.find_frame(3), Ok(0));
    assert_eq!(w.find_frame(4), Ok(2));
    w.end_read_txn();
}

#[test]
fn undo_drops_the_whole_transaction() {
    let mut w = MemWal::new();
    w.begin_read_txn().unwrap();
    w.begin_write_txn().unwrap();
    w.insert_frames(vec![frame(1, 0x01)], 0, false).unwrap();
    assert_eq!(w.undo(), Ok(()));
    w.insert_frames(vec![frame(2, 0x02)], 1, true).unwrap();
    w.end_write_txn().unwrap();
    w.end_read_txn();
    assert_eq!(w.last_frame_index(), 1);
    w.begin_read_txn().unwrap();
    assert_eq!(w.find_frame(1), Ok(0));
    assert_eq!(w.find_frame(2), Ok(1));
    w.end_read_txn();
}

#[test]
fn checkpoint_counts_and_truncate() {
    let mut w = MemWal::new();
    w.begin_read_txn().unwrap();
    w.begin_write_txn().unwrap();
    w.insert_frames(vec![frame(1, 1), frame(2, 2)], 2, true).unwrap();
    assert_eq!(w.checkpoint(CheckpointMode::Passive).unwrap_err().code, WAL_BUSY);
    w.end_write_txn().unwrap();
    w.end_read_txn();

    assert_eq!(w.checkpoint(CheckpointMode::Passive), Ok((2, 2)));
    assert_eq!(w.last_frame_index(), 2);
    assert_eq!(w.checkpoint(CheckpointMode::Truncate), Ok((2, 2)));
    assert_eq!(w.last_frame_index(), 0);
    w.begin_read_txn().unwrap();
    assert_eq!(w.find_frame(1), Ok(0));
    w.end_read_txn();
}

#[test]
fn replica_wal_refuses_local_writes_and_replays_frames() {
    let mut w = ReplicaWal::new();
    assert_eq!(w.begin_read_txn(), Ok(false));
    w.end_read_txn();
    assert_eq!(w.begin_write_txn().unwrap_err().code, WAL_READONLY);
    assert_eq!(w.insert_frames(vec![frame(1, 9)], 1, true).unwrap_err().code, WAL_MISUSE);

    assert_eq!(w.inject_frames(vec![frame(1, 0x11), frame(2, 0x22)], 2), Ok(()));
    assert_eq!(w.db_size(), 2);
    assert_eq!(w.begin_read_txn(), Ok(false));
    assert_eq!(w.find_frame(2), Ok(2));
    let mut buf: Vec<u8> = Vec::new();
    w.read_frame(2, &mut buf).unwrap();
    assert_eq!(buf, vec![0x22, 0x22, 0x22]);
    // a held snapshot refuses replay under it
    assert_eq!(w.inject_frames(vec![frame(3, 0x33)], 3).unwrap_err().code, WAL_BUSY);
    w.end_read_txn();
}

#[test]
fn passthrough_wrapper_is_byte_identical() {
    let mut direct = MemWal::new();
    let mut wrapped = WrapWal(MemWal::new());

    assert_eq!(direct.begin_read_txn(), wrapped.begin_read_txn());
    assert_eq!(direct.begin_write_txn(), wrapped.begin_write_txn());
    assert_eq!(
        direct.insert_frames(vec![frame(1, 0xAB), frame(7, 0xCD)], 2, true),
        wrapped.insert_frames(vec![frame(1, 0xAB), frame(7, 0xCD)], 2, true),
    );
    assert_eq!(direct.end_write_txn(), wrapped.end_write_txn());
    direct.end_read_txn();
    wrapped.end_read_txn();

    assert_eq!(direct.db_size(), wrapped.db_size());
    assert_eq!(direct.last_frame_index(), wrapped.last_frame_index());
    assert_eq!(direct.begin_read_txn(), wrapped.begin_read_txn());
    for page in 0..9_u32 {
        assert_eq!(direct.find_frame(page), wrapped.find_frame(page));
    }
    let mut b1: Vec<u8> = Vec::new();
    let mut b2: Vec<u8> = Vec::new();
    for fno in 1..=2_u32 {
        assert_eq!(direct.read_frame(fno, &mut b1), wrapped.read_frame(fno, &mut b2));
        assert_eq!(b1, b2);
    }
    direct.end_read_txn();
    wrapped.end_read_txn();
    assert_eq!(
        direct.checkpoint(CheckpointMode::Truncate),
        wrapped.checkpoint(CheckpointMode::Truncate),
    );
    assert_eq!(direct.last_frame_index(), wrapped.last_frame_index());
}

#[test]
fn wrap_factory_delegates() {
    let direct = MemCreateWal;
    let wrapped = WrapCreateWal { inner: MemCreateWal };
    assert_eq!(direct.use_shared_memory(), wrapped.use_shared_memory());
    let mut w1 = direct.open().unwrap();
    let mut w2 = wrapped.open().unwrap();
    assert_eq!(w1.begin_read_txn(), w2.begin_read_txn());
    assert_eq!(w1.db_size(), w2.db_size());
    w1.end_read_txn();
    w2.end_read_txn();
    assert_eq!(direct.close(w1), Ok(()));
    assert_eq!(wrapped.close(w2), Ok(()));
}
