use cf_speedtest::counter::ByteCounter;
use cf_speedtest::download::{
    after_session, plan_read, DownloadSession, ReadOutcome, ReadPlan, WorkerNext,
};
use cf_speedtest::error::{check_status, TransferError};
use cf_speedtest::upload::{UploadHelper, FILL_BYTE};

#[test]
fn empty_first_read_is_a_protocol_violation() {
    let mut session = DownloadSession::new();
    let mut counter = ByteCounter::new();
    counter.add(9);
    assert_eq!(session.on_read(0, &mut counter), Err(TransferError::ProtocolViolation));
    assert_eq!(session.received(), 0);
    assert_eq!(counter.total(), 9);
}

#[test]
fn empty_read_after_data_ends_the_session_normally() {
    let mut session = DownloadSession::new();
    let mut counter = ByteCounter::new();
    assert_eq!(session.on_read(4, &mut counter), Ok(ReadOutcome::Counted { bytes: 4 }));
    assert_eq!(session.on_read(0, &mut counter), Ok(ReadOutcome::Exhausted));
    assert_eq!(session.received(), 4);
    assert_eq!(counter.total(), 4);
}

#[test]
fn reads_are_counted_in_full() {
    let mut session = DownloadSession::new();
    let mut counter = ByteCounter::new();
    counter.add(1_000_000);
    assert_eq!(session.on_read(16384, &mut counter), Ok(ReadOutcome::Counted { bytes: 16384 }));
    assert_eq!(session.on_read(100, &mut counter), Ok(ReadOutcome::Counted { bytes: 100 }));
    assert_eq!(session.on_read(1, &mut counter), Ok(ReadOutcome::Counted { bytes: 1 }));
    assert_eq!(session.received(), 16485);
    assert_eq!(counter.total(), 1_016_485);
    assert_eq!(session.on_read(0, &mut counter), Ok(ReadOutcome::Exhausted));
    assert_eq!(counter.total(), 1_016_485);
}

#[test]
fn received_count_stays_at_the_largest_value() {
    let mut session = DownloadSession::new();
    let mut counter = ByteCounter::new();
    assert_eq!(
        session.on_read(u64::MAX, &mut counter),
        Ok(ReadOutcome::Counted { bytes: u64::MAX })
    );
    assert_eq!(session.on_read(5, &mut counter), Ok(ReadOutcome::Counted { bytes: 5 }));
    assert_eq!(session.received(), u64::MAX);
    assert_eq!(counter.total(), u64::MAX);
}

#[test]
fn plan_follows_the_stop_signal_and_the_rate() {
    assert_eq!(plan_read(true, 0), ReadPlan::Stop);
    assert_eq!(plan_read(true, 5_000_000), ReadPlan::Stop);
    assert_eq!(plan_read(false, 0), ReadPlan::Read { max_bytes: 4 });
    assert_eq!(plan_read(false, 1_001), ReadPlan::Read { max_bytes: 32 });
    assert_eq!(plan_read(false, 100_000), ReadPlan::Read { max_bytes: 512 });
    assert_eq!(plan_read(false, 999_999), ReadPlan::Read { max_bytes: 4096 });
    assert_eq!(plan_read(false, 5_000_000), ReadPlan::Read { max_bytes: 16384 });
}

#[test]
fn worker_goes_on_until_stopped_or_failed() {
    assert_eq!(after_session(Ok(()), false), WorkerNext::StartSession);
    assert_eq!(after_session(Ok(()), true), WorkerNext::Exit);
    assert_eq!(after_session(Err(TransferError::TransientTransferFailure), false), WorkerNext::Exit);
    assert_eq!(after_session(Err(TransferError::ProtocolViolation), false), WorkerNext::Exit);
    assert_eq!(after_session(Err(TransferError::TransientTransferFailure), true), WorkerNext::Exit);
}

#[test]
fn only_a_status_in_the_200s_opens_a_session() {
    assert_eq!(check_status(200), Ok(()));
    assert_eq!(check_status(204), Ok(()));
    assert_eq!(check_status(299), Ok(()));
    assert_eq!(check_status(199), Err(TransferError::TransientTransferFailure));
    assert_eq!(check_status(300), Err(TransferError::TransientTransferFailure));
    assert_eq!(check_status(404), Err(TransferError::TransientTransferFailure));
    assert_eq!(check_status(429), Err(TransferError::TransientTransferFailure));
    assert_eq!(check_status(503), Err(TransferError::TransientTransferFailure));
    assert_eq!(check_status(0), Err(TransferError::TransientTransferFailure));
    assert_eq!(check_status(u16::MAX), Err(TransferError::TransientTransferFailure));
}

#[test]
fn session_in_full_from_first_read_to_end_of_stream() {
    // A stream of 40 bytes read at the slowest rate, four bytes at a time.
    let mut session = DownloadSession::new();
    let mut counter = ByteCounter::new();
    let mut left = 40u64;
    let mut counted = 0u64;
    let mut reads = 0;
    loop {
        let max_bytes = match plan_read(false, 0) {
            ReadPlan::Read { max_bytes } => max_bytes,
            ReadPlan::Stop => unreachable!(),
        };
        let read = left.min(max_bytes);
        left -= read;
        reads += 1;
        match session.on_read(read, &mut counter) {
            Ok(ReadOutcome::Counted { bytes }) => counted += bytes,
            Ok(ReadOutcome::Exhausted) => break,
            Err(e) => panic!("{:?}", e),
        }
    }
    assert_eq!(reads, 11);
    assert_eq!(counted, 40);
    assert_eq!(session.received(), 40);
    assert_eq!(counter.total(), 40);
}

#[test]
fn upload_supplies_its_quota_and_no_more() {
    let mut helper = UploadHelper::new(10);
    let mut counter = ByteCounter::new();
    counter.add(100);
    let mut buf = [0u8; 4];
    assert_eq!(helper.read(&mut buf, false, &mut counter), 4);
    assert_eq!(buf, [FILL_BYTE; 4]);
    assert_eq!(helper.bytes_sent(), 4);
    assert_eq!(counter.total(), 104);
    assert_eq!(helper.read(&mut buf, false, &mut counter), 4);
    assert_eq!(helper.bytes_sent(), 8);
    // The last buffer is filled only as far as the quota reaches.
    let mut last = [9u8; 4];
    assert_eq!(helper.read(&mut last, false, &mut counter), 2);
    assert_eq!(last, [1, 1, 9, 9]);
    assert_eq!(helper.bytes_sent(), 10);
    assert_eq!(counter.total(), 110);
    let mut after = [9u8; 4];
    assert_eq!(helper.read(&mut after, false, &mut counter), 0);
    assert_eq!(after, [9, 9, 9, 9]);
    assert_eq!(helper.bytes_sent(), 10);
    assert_eq!(counter.total(), 110);
}

#[test]
fn upload_with_two_bytes_left_supplies_at_most_two() {
    let mut helper = UploadHelper::new(10);
    let mut counter = ByteCounter::new();
    let mut eight = [0u8; 8];
    assert_eq!(helper.read(&mut eight, false, &mut counter), 8);
    assert_eq!(counter.total(), 8);
    let mut buf = [0u8; 4];
    assert_eq!(helper.read(&mut buf, false, &mut counter), 2);
    assert_eq!(buf, [1, 1, 0, 0]);
    assert_eq!(helper.bytes_sent(), 10);
    assert_eq!(counter.total(), 10);
}

#[test]
fn every_session_adds_exactly_its_quota_to_the_counter() {
    // Sessions follow each other on a counter that already holds more than
    // one quota: each counts its own bytes from zero.
    let mut counter = ByteCounter::new();
    for (quota, room) in [(10u64, 4usize), (10, 3), (10, 10), (10, 64), (1, 7), (1_000, 16), (4096, 4096)] {
        let before = counter.total();
        let mut helper = UploadHelper::new(quota);
        let mut buf = vec![0u8; room];
        let mut supplied = 0u64;
        loop {
            let n = helper.read(&mut buf, false, &mut counter);
            if n == 0 {
                break;
            }
            assert!(n <= room);
            supplied += n as u64;
            assert!(supplied <= quota);
            assert_eq!(helper.bytes_sent(), supplied);
        }
        assert_eq!(supplied, quota);
        assert_eq!(counter.total() - before, quota);
    }
    assert_eq!(counter.total(), 10 + 10 + 10 + 10 + 1 + 1_000 + 4096);
}

#[test]
fn upload_ends_at_exactly_the_quota() {
    let mut helper = UploadHelper::new(8);
    let mut counter = ByteCounter::new();
    let mut buf = [0u8; 8];
    assert_eq!(helper.read(&mut buf, false, &mut counter), 8);
    assert_eq!(helper.read(&mut buf, false, &mut counter), 0);
    assert_eq!(helper.bytes_sent(), 8);
    assert_eq!(counter.total(), 8);
}

#[test]
fn upload_stops_supplying_when_signalled() {
    let mut helper = UploadHelper::new(1_000);
    let mut counter = ByteCounter::new();
    let mut buf = [7u8; 16];
    assert_eq!(helper.read(&mut buf, true, &mut counter), 0);
    assert_eq!(buf, [7u8; 16]);
    assert_eq!(helper.bytes_sent(), 0);
    assert_eq!(counter.total(), 0);
    assert_eq!(helper.read(&mut buf, false, &mut counter), 16);
    assert_eq!(buf, [1u8; 16]);
    let mut later = [7u8; 16];
    assert_eq!(helper.read(&mut later, true, &mut counter), 0);
    assert_eq!(later, [7u8; 16]);
    assert_eq!(helper.bytes_sent(), 16);
    assert_eq!(counter.total(), 16);
}

#[test]
fn upload_with_empty_quota_or_buffer_supplies_nothing() {
    let mut counter = ByteCounter::new();
    let mut none = UploadHelper::new(0);
    let mut buf = [3u8; 4];
    assert_eq!(none.read(&mut buf, false, &mut counter), 0);
    assert_eq!(buf, [3u8; 4]);
    let mut helper = UploadHelper::new(5);
    let mut empty: [u8; 0] = [];
    assert_eq!(helper.read(&mut empty, false, &mut counter), 0);
    assert_eq!(helper.bytes_sent(), 0);
    assert_eq!(counter.total(), 0);
}

#[test]
fn upload_goes_on_while_the_counter_stays_at_the_largest_value() {
    let mut helper = UploadHelper::new(u64::MAX);
    let mut counter = ByteCounter::new();
    counter.add(u64::MAX - 100);
    let mut buf = vec![0u8; 64];
    let mut reads = 0u64;
    while reads < 1_000 && helper.read(&mut buf, false, &mut counter) == 64 {
        reads += 1;
    }
    assert_eq!(reads, 1_000);
    assert_eq!(helper.bytes_sent(), 64_000);
    assert_eq!(counter.total(), u64::MAX);
}
