use storify::cat::display_transfer;
use storify::progress::ConsoleProgressReporter;
use storify::transfer::{Transfer, TransferStep};
use storify::upload::{file_transfer, progress_step};

fn run_with_full_reads(mut t: Transfer) -> (Vec<(u64, u64)>, Transfer) {
    let mut reads = Vec::new();
    while let TransferStep::Read { offset, len } = t.next_step() {
        reads.push((offset, len));
        t.record_read(len);
        assert!(reads.len() < 1000);
    }
    (reads, t)
}

#[test]
fn ranged_transfer_reads_chunks_then_closes() {
    let (reads, t) = run_with_full_reads(Transfer::ranged(10, 4));
    assert_eq!(reads, vec![(0, 4), (4, 4), (8, 2)]);
    assert_eq!(t.transferred, 10);
    assert!(t.is_complete());
    assert!(!t.finished);
}

#[test]
fn ranged_transfer_of_exact_multiple() {
    let (reads, t) = run_with_full_reads(Transfer::ranged(8, 4));
    assert_eq!(reads, vec![(0, 4), (4, 4)]);
    assert_eq!(t.transferred, 8);
}

#[test]
fn empty_object_closes_at_once() {
    let t = Transfer::ranged(0, 4);
    assert_eq!(t.next_step(), TransferStep::Close);
    assert!(t.is_complete());
}

#[test]
fn zero_length_read_completes_the_transfer() {
    let mut t = Transfer::ranged(10, 4);
    t.record_read(4);
    assert_eq!(t.next_step(), TransferStep::Read { offset: 4, len: 4 });
    t.record_read(0);
    assert_eq!(t.next_step(), TransferStep::Close);
    assert_eq!(t.transferred, 4);
    assert!(t.finished);
}

#[test]
fn short_reads_continue_where_they_stopped() {
    let mut t = Transfer::ranged(10, 4);
    t.record_read(3);
    assert_eq!(t.next_step(), TransferStep::Read { offset: 3, len: 4 });
    t.record_read(4);
    assert_eq!(t.next_step(), TransferStep::Read { offset: 7, len: 3 });
    t.record_read(3);
    assert_eq!(t.next_step(), TransferStep::Close);
}

#[test]
fn sequential_transfer_reads_until_nothing_comes() {
    let mut t = Transfer::sequential(8192);
    assert_eq!(t.next_step(), TransferStep::Read { offset: 0, len: 8192 });
    t.record_read(8192);
    assert_eq!(t.next_step(), TransferStep::Read { offset: 8192, len: 8192 });
    t.record_read(100);
    assert_eq!(t.next_step(), TransferStep::Read { offset: 8292, len: 8192 });
    t.record_read(0);
    assert_eq!(t.next_step(), TransferStep::Close);
    assert_eq!(t.transferred, 8292);
}

#[test]
fn byte_count_stops_at_the_largest_number() {
    let mut t = Transfer::sequential(8);
    t.record_read(u64::MAX - 1);
    t.record_read(5);
    assert_eq!(t.transferred, u64::MAX);
}

#[test]
fn chunk_of_zero_ends_with_the_first_read() {
    let mut t = Transfer::ranged(10, 0);
    assert_eq!(t.next_step(), TransferStep::Read { offset: 0, len: 0 });
    t.record_read(0);
    assert_eq!(t.next_step(), TransferStep::Close);
}

#[test]
fn upload_reads_buffers_and_reports_every_hundredth() {
    let t = file_transfer();
    assert_eq!(t.next_step(), TransferStep::Read { offset: 0, len: 8192 });
    assert_eq!(progress_step(), 819200);
}

#[test]
fn display_reads_by_mebibyte() {
    let t = display_transfer(3 * 1048576);
    assert_eq!(t.next_step(), TransferStep::Read { offset: 0, len: 1048576 });
    let (reads, _) = run_with_full_reads(t);
    assert_eq!(reads.len(), 3);
}

#[test]
fn reporter_reports_only_on_multiples_of_the_step() {
    let r = ConsoleProgressReporter::new("Copying k".to_string(), Some(200), 50);
    assert_eq!(r.percent(0), Some(0));
    assert_eq!(r.percent(50), Some(25));
    assert_eq!(r.percent(51), None);
    assert_eq!(r.percent(100), Some(50));
    assert_eq!(r.percent(200), Some(100));
    assert_eq!(r.maybe_report(150), Some("\r Copying k: 75%".to_string()));
    assert_eq!(r.maybe_report(149), None);
}

#[test]
fn reporter_rounds_percent_down() {
    let r = ConsoleProgressReporter::new("x".to_string(), Some(3), 1);
    assert_eq!(r.percent(1), Some(33));
    assert_eq!(r.percent(2), Some(66));
    assert_eq!(r.percent(3), Some(100));
    let r = ConsoleProgressReporter::new("x".to_string(), Some(100), 1);
    assert_eq!(r.percent(29), Some(29));
}

#[test]
fn reporter_is_silent_without_a_total() {
    let r = ConsoleProgressReporter::new("x".to_string(), None, 1);
    assert_eq!(r.maybe_report(10), None);
    let r = ConsoleProgressReporter::new("x".to_string(), Some(0), 1);
    assert_eq!(r.maybe_report(0), None);
}

#[test]
fn reporter_takes_a_step_of_zero_as_one() {
    let r = ConsoleProgressReporter::new("x".to_string(), Some(10), 0);
    assert_eq!(r.percent(7), Some(70));
}

#[test]
fn reporter_caps_the_percentage() {
    let r = ConsoleProgressReporter::new("x".to_string(), Some(1), 1);
    assert_eq!(r.percent(u64::MAX), Some(u32::MAX));
}
