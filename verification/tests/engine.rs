use driver_core::buffer::MappingOutcome;
use driver_core::ctl::IOCTL_ZERO_CLEAR_STATS;
use driver_core::ctl::IOCTL_ZERO_GET_STATS;
use driver_core::dispatch::{DispatchTable, HandlerKind, MajorFunction, Request, ZeroDevice};
use driver_core::stats::{decode_stats_record, ZeroStats};
use driver_core::status::{Completion, DriverError, RequestStatus};
use driver_core::status::{
    STATUS_BUFFER_TOO_SMALL, STATUS_INSUFFICIENT_RESOURCES, STATUS_INVALID_BUFFER_SIZE,
    STATUS_INVALID_DEVICE_REQUEST, STATUS_SUCCESS,
};
use driver_core::zero::{zero_create_close, zero_device_control, zero_read, zero_write};

fn stats_of(record: &Vec<u8>) -> (u64, u64) {
    let decoded = decode_stats_record(record);
    (decoded.total_read, decoded.total_written)
}

#[test]
fn read_yields_zeroes_and_counts() {
    let mut stats = ZeroStats::new();
    let (completion, data) = zero_read(&mut stats, 64, MappingOutcome::Mapped);
    assert_eq!(completion.status, RequestStatus::Success);
    assert_eq!(completion.bytes_transferred, 64);
    assert_eq!(completion.status_code(), STATUS_SUCCESS);
    assert_eq!(data.len(), 64);
    assert!(data.iter().all(|b| *b == 0));
    assert_eq!(stats.total_read, 64);
    assert_eq!(stats.total_written, 0);
}

#[test]
fn zero_length_read_rejected() {
    let mut stats = ZeroStats::new();
    stats.record_read(10);
    let (completion, data) = zero_read(&mut stats, 0, MappingOutcome::Mapped);
    assert_eq!(completion.status, RequestStatus::Failed(DriverError::InvalidLength));
    assert_eq!(completion.bytes_transferred, 0);
    assert_eq!(completion.status_code(), STATUS_INVALID_BUFFER_SIZE);
    assert!(data.is_empty());
    assert_eq!(stats.total_read, 10);
}

#[test]
fn exhausted_mapping_reported_upward() {
    let mut stats = ZeroStats::new();
    let (completion, data) = zero_read(&mut stats, 32, MappingOutcome::Exhausted);
    assert_eq!(completion.status, RequestStatus::Failed(DriverError::ResourceExhausted));
    assert_eq!(completion.bytes_transferred, 0);
    assert_eq!(completion.status_code(), STATUS_INSUFFICIENT_RESOURCES);
    assert!(data.is_empty());
    assert_eq!(stats.total_read, 0);
}

#[test]
fn write_succeeds_and_counts_any_length() {
    let mut stats = ZeroStats::new();
    let completion = zero_write(&mut stats, 1024);
    assert_eq!(completion.status, RequestStatus::Success);
    assert_eq!(completion.bytes_transferred, 1024);
    assert_eq!(stats.total_written, 1024);
    assert_eq!(stats.total_read, 0);

    let completion = zero_write(&mut stats, 0);
    assert_eq!(completion.status, RequestStatus::Success);
    assert_eq!(completion.bytes_transferred, 0);
    assert_eq!(stats.total_written, 1024);
}

#[test]
fn clear_then_get_reports_zero_counters() {
    let mut stats = ZeroStats::new();
    stats.record_read(100);
    stats.record_write(200);
    let (completion, data) = zero_device_control(&mut stats, IOCTL_ZERO_CLEAR_STATS, 0);
    assert_eq!(completion.status, RequestStatus::Success);
    assert_eq!(completion.bytes_transferred, 0);
    assert!(data.is_empty());

    let (completion, record) = zero_device_control(&mut stats, IOCTL_ZERO_GET_STATS, 16);
    assert_eq!(completion.status, RequestStatus::Success);
    assert_eq!(completion.bytes_transferred, 16);
    assert_eq!(stats_of(&record), (0, 0));
}

#[test]
fn sequential_writes_accumulate_their_sum() {
    let mut device = ZeroDevice::new();
    let lengths: [u32; 5] = [1, 2, 3, 500, 94];
    for len in lengths {
        let (completion, _) =
            device.handle_request(Request::Write { length: len }, MappingOutcome::Mapped);
        assert_eq!(completion.status, RequestStatus::Success);
        assert_eq!(completion.bytes_transferred, len);
    }
    let request = Request::DeviceControl { code: IOCTL_ZERO_GET_STATS, output_length: 16 };
    let (completion, record) = device.handle_request(request, MappingOutcome::Mapped);
    assert_eq!(completion.status, RequestStatus::Success);
    assert_eq!(stats_of(&record), (0, 600));
}

#[test]
fn get_stats_needs_the_whole_record() {
    let mut stats = ZeroStats::new();
    stats.record_write(42);
    let (completion, data) = zero_device_control(&mut stats, IOCTL_ZERO_GET_STATS, 15);
    assert_eq!(completion.status, RequestStatus::Failed(DriverError::BufferTooSmall));
    assert_eq!(completion.bytes_transferred, 0);
    assert_eq!(completion.status_code(), STATUS_BUFFER_TOO_SMALL);
    assert!(data.is_empty());
    assert_eq!(stats.total_written, 42);
}

#[test]
fn unknown_control_code_unsupported() {
    let mut stats = ZeroStats::new();
    let (completion, data) = zero_device_control(&mut stats, 0xdeadbeef, 64);
    assert_eq!(completion.status, RequestStatus::Failed(DriverError::UnsupportedRequest));
    assert_eq!(completion.status_code(), STATUS_INVALID_DEVICE_REQUEST);
    assert!(data.is_empty());
}

#[test]
fn stats_record_layout_is_two_le_u64() {
    let mut stats = ZeroStats::new();
    stats.record_read(5);
    stats.record_write(7);
    let record = stats.encode();
    let mut expected = Vec::new();
    expected.extend_from_slice(&5u64.to_le_bytes());
    expected.extend_from_slice(&7u64.to_le_bytes());
    assert_eq!(record, expected);
}

#[test]
fn counters_wrap_like_the_hardware_add() {
    let mut stats = ZeroStats::new();
    stats.total_written = u64::MAX;
    stats.record_write(1);
    assert_eq!(stats.total_written, 0);
    assert_eq!(stats.total_read, 0);
}

#[test]
fn snapshot_copies_both_counters() {
    let mut stats = ZeroStats::new();
    stats.record_read(9);
    stats.record_write(11);
    let copy = stats.snapshot();
    assert_eq!(copy.total_read, 9);
    assert_eq!(copy.total_written, 11);
}

#[test]
fn create_and_close_succeed_with_no_bytes() {
    let completion = zero_create_close();
    assert_eq!(completion.status, RequestStatus::Success);
    assert_eq!(completion.bytes_transferred, 0);

    let mut device = ZeroDevice::new();
    let (completion, data) = device.handle_request(Request::Create, MappingOutcome::Mapped);
    assert_eq!(completion.status, RequestStatus::Success);
    assert!(data.is_empty());
    let (completion, _) = device.handle_request(Request::Close, MappingOutcome::Mapped);
    assert_eq!(completion.status, RequestStatus::Success);
}

#[test]
fn dispatch_tables_route_by_operation() {
    let zero = DispatchTable::zero_device();
    assert_eq!(zero.route(MajorFunction::Create), Some(HandlerKind::CreateClose));
    assert_eq!(zero.route(MajorFunction::Read), Some(HandlerKind::ZeroRead));
    assert_eq!(zero.route(MajorFunction::Write), Some(HandlerKind::DiscardWrite));
    assert_eq!(zero.route(MajorFunction::DeviceControl), Some(HandlerKind::StatsControl));

    let booster = DispatchTable::booster_device();
    assert_eq!(booster.route(MajorFunction::Write), Some(HandlerKind::PriorityWrite));
    assert_eq!(booster.route(MajorFunction::Read), None);
    assert_eq!(booster.route(MajorFunction::DeviceControl), None);

    let completion = DispatchTable::unsupported();
    assert_eq!(completion.status, RequestStatus::Failed(DriverError::UnsupportedRequest));
    assert_eq!(completion.bytes_transferred, 0);
}

#[test]
fn full_completion_reports_the_expected_codes() {
    assert_eq!(Completion::success(3).status_code(), STATUS_SUCCESS);
    let not_found = Completion::failure(DriverError::TargetNotFound { code: 0xC000000B });
    assert_eq!(not_found.status_code(), 0xC000000B);
    assert_eq!(not_found.bytes_transferred, 0);
}
