use smbpbi::error::{Cause, PostBoxError, SizeBoundsError};
use smbpbi::postbox::{settle, PostBoxReader, PostBoxRequest, MAX_POST_BOX_SIZE};
use smbpbi::replay::{ReplayTransport, Request};
use smbpbi::transfer::{
    BusError, BusFault, BusStage, Device, IncompleteTransferError, TransferOutcome, Transport,
};

/// Completes both phases and fills the buffer with bytes of its own making;
/// notes whether it was asked at all.
struct Echo {
    invoked: bool,
}

fn echoed(i: usize) -> u8 {
    (i * 37 + 11) as u8
}

impl Transport for Echo {
    fn transfer(
        &mut self,
        _device: Device,
        _address_bytes: &[u8],
        out: &mut [u8],
    ) -> Result<u32, BusFault> {
        self.invoked = true;
        for (i, byte) in out.iter_mut().enumerate() {
            *byte = echoed(i);
        }
        Ok(2)
    }
}

fn lines(error: &PostBoxError) -> Vec<String> {
    error.chain()
}

#[test]
fn the_bound_is_eight_bytes() {
    assert_eq!(MAX_POST_BOX_SIZE, 8);
}

#[test]
fn request_within_the_bound_is_made() {
    for size in 0..=8usize {
        let request = PostBoxRequest::new(0x20, size).unwrap();
        assert_eq!(request.offset(), 0x20);
        assert_eq!(request.size(), size);
    }
}

#[test]
fn request_over_the_bound_is_refused() {
    assert_eq!(PostBoxRequest::new(0, 9), Err(SizeBoundsError { requested: 9, max: 8 }));
    assert_eq!(
        PostBoxRequest::new(0, usize::MAX),
        Err(SizeBoundsError { requested: usize::MAX, max: 8 })
    );
}

#[test]
fn oversize_read_fails_without_touching_the_transport() {
    for size in [9usize, 10, 16, 255, 4096, usize::MAX] {
        let mut reader = PostBoxReader::new(Echo { invoked: false });
        let result = reader.read(1, 0x50, 0x10, size);
        assert_eq!(
            result,
            Err(PostBoxError {
                device: Device { bus: 1, address: 0x50 },
                offset: 0x10,
                size,
                cause: Cause::SizeBounds(SizeBoundsError { requested: size, max: 8 }),
            })
        );
        assert!(!reader.transport.invoked);
    }
}

#[test]
fn read_within_the_bound_returns_the_bytes_that_were_read() {
    for size in 0..=8usize {
        let mut reader = PostBoxReader::new(Echo { invoked: false });
        let bytes = reader.read(2, 0x2a, 0x300, size).unwrap();
        let expected: Vec<u8> = (0..size).map(echoed).collect();
        assert_eq!(bytes, expected);
        assert_eq!(bytes.len(), size);
        assert!(reader.transport.invoked);
    }
}

#[test]
fn read_of_no_bytes_still_makes_the_exchange() {
    let mut reader = PostBoxReader::new(ReplayTransport::new(Ok(2), vec![1, 2, 3]));
    assert_eq!(reader.read(0, 0x10, 0, 0), Ok(vec![]));
    assert_eq!(
        reader.transport.requests,
        vec![Request { device: Device { bus: 0, address: 0x10 }, address_bytes: vec![0], size: 0 }]
    );
}

#[test]
fn one_of_two_phases_fails_the_read() {
    let mut reader = PostBoxReader::new(ReplayTransport::new(Ok(1), vec![9, 9, 9, 9]));
    let error = reader.read(1, 0x50, 0x10, 4).unwrap_err();
    assert_eq!(
        error.cause,
        Cause::IncompleteTransfer(IncompleteTransferError {
            messages_completed: 1,
            messages_expected: 2,
        })
    );
    assert!(lines(&error).iter().any(|line| line.contains("1/2")));
}

#[test]
fn no_phase_completed_fails_the_read() {
    let mut reader = PostBoxReader::new(ReplayTransport::new(Ok(0), vec![]));
    let error = reader.read(1, 0x50, 0x10, 4).unwrap_err();
    assert_eq!(
        error.cause,
        Cause::IncompleteTransfer(IncompleteTransferError {
            messages_completed: 0,
            messages_expected: 2,
        })
    );
}

#[test]
fn more_phases_than_expected_fail_the_read() {
    let mut reader = PostBoxReader::new(ReplayTransport::new(Ok(3), vec![1, 2]));
    let error = reader.read(1, 0x50, 0x10, 2).unwrap_err();
    assert_eq!(
        error.cause,
        Cause::IncompleteTransfer(IncompleteTransferError {
            messages_completed: 3,
            messages_expected: 2,
        })
    );
}

#[test]
fn complete_read_of_four_bytes() {
    let transport = ReplayTransport::new(Ok(2), vec![0xDE, 0xAD, 0xBE, 0xEF]);
    let mut reader = PostBoxReader::new(transport);
    assert_eq!(reader.read(1, 0x50, 0x10, 4), Ok(vec![0xDE, 0xAD, 0xBE, 0xEF]));
    assert_eq!(
        reader.transport.requests,
        vec![Request {
            device: Device { bus: 1, address: 0x50 },
            address_bytes: vec![0x10],
            size: 4,
        }]
    );
}

#[test]
fn wide_offset_goes_out_as_two_bytes() {
    let transport = ReplayTransport::new(Ok(2), vec![0x01, 0x02]);
    let mut reader = PostBoxReader::new(transport);
    assert_eq!(reader.read(4, 0x1d, 0x1234, 2), Ok(vec![0x01, 0x02]));
    assert_eq!(reader.transport.requests.len(), 1);
    assert_eq!(reader.transport.requests[0].address_bytes, vec![0x12, 0x34]);
    assert_eq!(reader.transport.requests[0].size, 2);
}

#[test]
fn nine_bytes_are_refused_at_once() {
    let mut reader = PostBoxReader::new(ReplayTransport::new(Ok(2), vec![0; 9]));
    let error = reader.read(1, 0x50, 0x10, 9).unwrap_err();
    assert_eq!(error.cause, Cause::SizeBounds(SizeBoundsError { requested: 9, max: 8 }));
    assert_eq!(lines(&error), vec!["Maximum post-box size if 8 bytes"]);
    assert!(reader.transport.requests.is_empty());
}

#[test]
fn partial_transfer_is_reported_with_both_counts() {
    let mut reader = PostBoxReader::new(ReplayTransport::new(Ok(1), vec![0xDE, 0xAD, 0xBE, 0xEF]));
    let error = reader.read(1, 0x50, 0x10, 4).unwrap_err();
    assert_eq!(
        lines(&error),
        vec![
            "Unable to read post-box at +16, size=4",
            "Only 1/2 messages were transmitted successfully ",
        ]
    );
    let message = lines(&error).join(": ");
    assert!(message.contains('1') && message.contains('2'));
}

#[test]
fn bus_failure_during_the_exchange_is_passed_on_with_what_was_asked() {
    let fault = BusFault { stage: BusStage::Transfer, detail: String::from("Remote I/O error") };
    let mut reader = PostBoxReader::new(ReplayTransport::new(Err(fault.clone()), vec![]));
    let error = reader.read(2, 0x51, 0x1234, 2).unwrap_err();
    let device = Device { bus: 2, address: 0x51 };
    assert_eq!(
        error,
        PostBoxError {
            device,
            offset: 0x1234,
            size: 2,
            cause: Cause::Bus(BusError { device, offset: 0x1234, fault }),
        }
    );
    assert_eq!(
        lines(&error),
        vec![
            "Unable to read post-box at +4660, size=2",
            "Unable to complete i2c transfer",
            "Remote I/O error",
        ]
    );
    assert_eq!(reader.transport.requests.len(), 1);
}

#[test]
fn failure_to_open_the_device_names_the_device() {
    let fault =
        BusFault { stage: BusStage::Open, detail: String::from("No such file or directory") };
    let mut reader = PostBoxReader::new(ReplayTransport::new(Err(fault), vec![]));
    let error = reader.read(12, 80, 0x10, 4).unwrap_err();
    assert_eq!(
        lines(&error),
        vec!["Unable to open /dev/i2c-12 @80", "No such file or directory"]
    );
}

#[test]
fn a_failed_read_is_not_tried_again() {
    let mut reader = PostBoxReader::new(ReplayTransport::new(Ok(1), vec![]));
    assert!(reader.read(1, 0x50, 0x10, 4).is_err());
    assert_eq!(reader.transport.requests.len(), 1);
}

#[test]
fn each_read_is_one_exchange() {
    let mut reader = PostBoxReader::new(ReplayTransport::new(Ok(2), vec![5, 6]));
    assert_eq!(reader.read(1, 0x50, 0x00, 2), Ok(vec![5, 6]));
    assert_eq!(reader.read(1, 0x50, 0x100, 1), Ok(vec![5]));
    assert_eq!(reader.transport.requests.len(), 2);
    assert_eq!(reader.transport.requests[1].address_bytes, vec![0x01, 0x00]);
}

#[test]
fn buffer_is_zeroed_before_the_exchange() {
    let mut reader = PostBoxReader::new(ReplayTransport::new(Ok(2), vec![0xff, 0xfe]));
    assert_eq!(reader.read(1, 0x50, 0x10, 5), Ok(vec![0xff, 0xfe, 0, 0, 0]));
}

#[test]
fn settle_hands_out_the_buffer_of_a_complete_exchange() {
    let device = Device { bus: 1, address: 0x50 };
    let executed = Ok(TransferOutcome { messages_completed: 2, messages_expected: 2 });
    assert_eq!(settle(device, 0x10, 3, executed, vec![7, 8, 9]), Ok(vec![7, 8, 9]));
}

#[test]
fn settle_keeps_the_buffer_of_a_partial_exchange() {
    let device = Device { bus: 1, address: 0x50 };
    let executed = Ok(TransferOutcome { messages_completed: 1, messages_expected: 2 });
    assert_eq!(
        settle(device, 0x10, 3, executed, vec![7, 8, 9]),
        Err(PostBoxError {
            device,
            offset: 0x10,
            size: 3,
            cause: Cause::IncompleteTransfer(IncompleteTransferError {
                messages_completed: 1,
                messages_expected: 2,
            }),
        })
    );
}

#[test]
fn settle_wraps_a_bus_failure() {
    let device = Device { bus: 1, address: 0x50 };
    let failure = BusError {
        device,
        offset: 0x10,
        fault: BusFault { stage: BusStage::Transfer, detail: String::from("timed out") },
    };
    assert_eq!(
        settle(device, 0x10, 3, Err(failure.clone()), vec![0, 0, 0]),
        Err(PostBoxError { device, offset: 0x10, size: 3, cause: Cause::Bus(failure) })
    );
}

#[test]
fn size_bounds_message_names_the_bound() {
    let error = SizeBoundsError { requested: 9, max: 8 };
    assert_eq!(error.message(), "Maximum post-box size if 8 bytes");
}

#[test]
fn post_box_error_clone_is_equal() {
    let error = PostBoxError {
        device: Device { bus: 1, address: 2 },
        offset: 3,
        size: 4,
        cause: Cause::Bus(BusError {
            device: Device { bus: 1, address: 2 },
            offset: 3,
            fault: BusFault { stage: BusStage::Open, detail: String::from("x") },
        }),
    };
    assert_eq!(error.clone(), error);
}
