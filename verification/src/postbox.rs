//! Reading a post-box: the bound on its size, and the one exchange that
//! reads it.

use vstd::prelude::*;
use crate::address::{encode, encoded};
use crate::error::{Cause, PostBoxError, SizeBoundsError};
use crate::transfer::{
    device_at, execute, outcome_of, validate, validated, BusError, BusFault, Device,
    IncompleteTransferError, TransferOutcome, Transport, MESSAGES_EXPECTED,
};

verus! {

/// The largest register block that the post-box protocol defines, in bytes.
pub const MAX_POST_BOX_SIZE: usize = 8;

/// A read of `size` bytes at `offset`, with a size that a post-box can hold.
#[derive(Clone, Copy, Debug, PartialEq, Eq)]
pub struct PostBoxRequest {
    offset: u16,
    size: usize,
}

impl PostBoxRequest {
    #[verifier::type_invariant]
    spec fn inv(&self) -> bool {
        self.size <= MAX_POST_BOX_SIZE
    }

    /// The request for `size` bytes at `offset`, or the refusal of a size
    /// over the bound.
    pub fn new(offset: u16, size: usize) -> (request: Result<PostBoxRequest, SizeBoundsError>)
        ensures
            size <= MAX_POST_BOX_SIZE ==> request is Ok && request->Ok_0.offset() == offset
                && request->Ok_0.size() == size,
            size > MAX_POST_BOX_SIZE ==> request == Err::<PostBoxRequest, _>(
                SizeBoundsError { requested: size, max: MAX_POST_BOX_SIZE },
            ),
    {
        if size <= MAX_POST_BOX_SIZE {
            Ok(PostBoxRequest { offset, size })
        } else {
            Err(SizeBoundsError { requested: size, max: MAX_POST_BOX_SIZE })
        }
    }

    /// The offset of the first register to read.
    pub closed spec fn spec_offset(&self) -> u16 {
        self.offset
    }

    /// The offset of the first register to read.
    #[verifier::when_used_as_spec(spec_offset)]
    pub fn offset(&self) -> (offset: u16)
        ensures
            offset == self.offset(),
    {
        self.offset
    }

    /// The number of bytes to read.
    pub closed spec fn spec_size(&self) -> usize {
        self.size
    }

    /// The number of bytes to read, which is within the bound.
    #[verifier::when_used_as_spec(spec_size)]
    pub fn size(&self) -> (size: usize)
        ensures
            size == self.size(),
            size <= MAX_POST_BOX_SIZE,
    {
        proof {
            use_type_invariant(self);
        }
        self.size
    }
}

/// A buffer of `size` bytes before anything was read into it.
pub open spec fn zeroes(size: usize) -> Seq<u8> {
    Seq::new(size as nat, |i: int| 0u8)
}

/// The result of a read with its bytes as a sequence.
pub open spec fn bytes_of(result: Result<Vec<u8>, PostBoxError>) -> Result<Seq<u8>, PostBoxError> {
    match result {
        Ok(bytes) => Ok(bytes@),
        Err(error) => Err(error),
    }
}

/// What a read of `size` bytes at `offset` of `device` comes to, once the
/// exchange has ended as `executed` and has left `filled` in the buffer: the
/// bytes where both phases were completed, else the failure with what was
/// asked for.
pub open spec fn settled(
    device: Device,
    offset: u16,
    size: usize,
    executed: Result<TransferOutcome, BusError>,
    filled: Seq<u8>,
) -> Result<Seq<u8>, PostBoxError> {
    match executed {
        Err(bus) => Err(PostBoxError { device, offset, size, cause: Cause::Bus(bus) }),
        Ok(outcome) => match validated(outcome) {
            Err(incomplete) => Err(
                PostBoxError { device, offset, size, cause: Cause::IncompleteTransfer(incomplete) },
            ),
            Ok(_) => Ok(filled),
        },
    }
}

/// Settles a read after its exchange: hands out the buffer where the
/// exchange was completed, and never where it was not.
pub fn settle(
    device: Device,
    offset: u16,
    size: usize,
    executed: Result<TransferOutcome, BusError>,
    buffer: Vec<u8>,
) -> (result: Result<Vec<u8>, PostBoxError>)
    ensures
        bytes_of(result) == settled(device, offset, size, executed, buffer@),
{
    match executed {
        Err(bus) => Err(PostBoxError { device, offset, size, cause: Cause::Bus(bus) }),
        Ok(outcome) => match validate(outcome) {
            Err(incomplete) => Err(
                PostBoxError { device, offset, size, cause: Cause::IncompleteTransfer(incomplete) },
            ),
            Ok(_) => Ok(buffer),
        },
    }
}

/// Whether `result` is what one exchange gives a read of `size` bytes at
/// `offset` of `device`: an exchange that the transport admits from `before`
/// to `after`, in which the address bytes of `offset` are written and a
/// zeroed buffer of `size` bytes is read into, settled as `settled` says.
pub open spec fn read_by_one_exchange<T: Transport>(
    before: T,
    after: T,
    device: Device,
    offset: u16,
    size: usize,
    result: Result<Vec<u8>, PostBoxError>,
) -> bool {
    exists|report: Result<u32, BusFault>, filled: Seq<u8>|
        {
            &&& filled.len() == size
            &&& #[trigger] after.admits(
                &before,
                device,
                encoded(offset),
                zeroes(size),
                filled,
                report,
            )
            &&& bytes_of(result) == settled(
                device,
                offset,
                size,
                outcome_of(device, offset, report),
                filled,
            )
        }
}

/// What a read is refused with when it asks for more than a post-box holds.
pub open spec fn refused(device: Device, offset: u16, size: usize) -> PostBoxError {
    PostBoxError {
        device,
        offset,
        size,
        cause: Cause::SizeBounds(SizeBoundsError { requested: size, max: MAX_POST_BOX_SIZE }),
    }
}

/// Reads post-boxes over a transport, which it holds for itself as long as it
/// lives.
pub struct PostBoxReader<T: Transport> {
    pub transport: T,
}

impl<T: Transport> PostBoxReader<T> {
    /// A reader over `transport`.
    pub fn new(transport: T) -> (reader: Self)
        ensures
            reader.transport == transport,
    {
        PostBoxReader { transport }
    }

    /// Reads `size` bytes at `offset` from the post-box of the device at
    /// `address` on bus `bus`.
    ///
    /// A size over the bound is refused before anything is asked of the
    /// transport. Any other read is one exchange, of the address bytes of
    /// `offset` and a zeroed buffer of `size` bytes, and is not tried again:
    /// the bytes come back where both phases were completed, else the
    /// failure.
    pub fn read(&mut self, bus: u8, address: u16, offset: u16, size: usize) -> (result: Result<
        Vec<u8>,
        PostBoxError,
    >)
        ensures
            size > MAX_POST_BOX_SIZE ==> bytes_of(result) == Err::<Seq<u8>, _>(
                refused(device_at(bus, address), offset, size),
            ),
            size > MAX_POST_BOX_SIZE ==> final(self).transport == old(self).transport,
            size <= MAX_POST_BOX_SIZE ==> read_by_one_exchange(
                old(self).transport,
                final(self).transport,
                device_at(bus, address),
                offset,
                size,
                result,
            ),
            result matches Ok(bytes) ==> bytes@.len() == size && size <= MAX_POST_BOX_SIZE,
            result matches Err(error) ==> error.device == device_at(bus, address) && error.offset
                == offset && error.size == size,
            result matches Err(error) ==> (error.cause is SizeBounds <==> size
                > MAX_POST_BOX_SIZE),
    {
        let device = Device { bus, address };
        let request = match PostBoxRequest::new(offset, size) {
            Ok(request) => request,
            Err(bounds) => {
                return Err(PostBoxError { device, offset, size, cause: Cause::SizeBounds(bounds) });
            },
        };
        let address_bytes = encode(request.offset());
        let mut buffer: Vec<u8> = vec![0u8; request.size()];
        assert(buffer@ =~= zeroes(size));
        let executed = execute(&mut self.transport, device, &address_bytes, buffer.as_mut_slice());
        settle(device, offset, size, executed, buffer)
    }
}

/// A transport that completes both phases of every exchange and leaves the
/// same bytes in the buffer each time has a read within the bound return
/// those bytes, as many as were asked for and none of them changed.
pub proof fn lemma_completed_read_returns_what_was_read<T: Transport>(
    before: T,
    after: T,
    device: Device,
    offset: u16,
    size: usize,
    data: Seq<u8>,
    result: Result<Vec<u8>, PostBoxError>,
)
    requires
        size <= MAX_POST_BOX_SIZE,
        read_by_one_exchange(before, after, device, offset, size, result),
        forall|report: Result<u32, BusFault>, filled: Seq<u8>| #[trigger]
            after.admits(&before, device, encoded(offset), zeroes(size), filled, report)
                ==> report == Ok::<u32, BusFault>(MESSAGES_EXPECTED) && filled == data,
    ensures
        bytes_of(result) == Ok::<Seq<u8>, PostBoxError>(data),
        data.len() == size,
{
}

/// A transport that reports another number of completed phases than the two
/// of an exchange has a read within the bound fail with both counts, and no
/// bytes are handed out.
pub proof fn lemma_partial_read_fails<T: Transport>(
    before: T,
    after: T,
    device: Device,
    offset: u16,
    size: usize,
    completed: u32,
    result: Result<Vec<u8>, PostBoxError>,
)
    requires
        size <= MAX_POST_BOX_SIZE,
        completed != MESSAGES_EXPECTED,
        read_by_one_exchange(before, after, device, offset, size, result),
        forall|report: Result<u32, BusFault>, filled: Seq<u8>| #[trigger]
            after.admits(&before, device, encoded(offset), zeroes(size), filled, report)
                ==> report == Ok::<u32, BusFault>(completed),
    ensures
        result matches Err(error) && error == (PostBoxError {
            device,
            offset,
            size,
            cause: Cause::IncompleteTransfer(
                IncompleteTransferError {
                    messages_completed: completed,
                    messages_expected: MESSAGES_EXPECTED,
                },
            ),
        }),
{
}

/// A failure of the bus fails the read with that failure as its cause, and
/// with the device and the offset that the exchange was for.
pub proof fn lemma_bus_failure_fails_read<T: Transport>(
    before: T,
    after: T,
    device: Device,
    offset: u16,
    size: usize,
    fault: BusFault,
    result: Result<Vec<u8>, PostBoxError>,
)
    requires
        size <= MAX_POST_BOX_SIZE,
        read_by_one_exchange(before, after, device, offset, size, result),
        forall|report: Result<u32, BusFault>, filled: Seq<u8>| #[trigger]
            after.admits(&before, device, encoded(offset), zeroes(size), filled, report)
                ==> report == Err::<u32, BusFault>(fault),
    ensures
        result matches Err(error) && error == (PostBoxError {
            device,
            offset,
            size,
            cause: Cause::Bus(BusError { device, offset, fault }),
        }),
{
}

} // verus!
