//! A transport without a bus: it answers every transfer as it was told to,
//! and keeps a record of what it was asked.

use vstd::prelude::*;
use vstd::slice::slice_to_vec;
use crate::address::encoded;
use crate::error::PostBoxError;
use crate::postbox::{bytes_of, read_by_one_exchange, MAX_POST_BOX_SIZE};
use crate::transfer::{BusFault, Device, Transport, MESSAGES_EXPECTED};

verus! {

/// One transfer that was asked of a transport.
#[derive(Debug, PartialEq, Eq)]
pub struct Request {
    pub device: Device,
    /// The bytes to write in the first phase.
    pub address_bytes: Vec<u8>,
    /// The number of bytes to read in the second phase.
    pub size: usize,
}

impl View for Request {
    type V = (Device, Seq<u8>, usize);

    open spec fn view(&self) -> Self::V {
        (self.device, self.address_bytes@, self.size)
    }
}

/// A transport that reports `report` on every transfer, after it has
/// written `data` over the front of the buffer, and that records each
/// transfer in `requests`.
#[derive(Debug)]
pub struct ReplayTransport {
    pub report: Result<u32, BusFault>,
    pub data: Vec<u8>,
    pub requests: Vec<Request>,
}

/// A buffer that held `initial` after `data` was written over its front, as
/// far as the two reach.
pub open spec fn overwritten(initial: Seq<u8>, data: Seq<u8>) -> Seq<u8> {
    Seq::new(
        initial.len(),
        |i: int|
            if i < data.len() {
                data[i]
            } else {
                initial[i]
            },
    )
}

/// The requests of a record, each as plain values.
pub open spec fn requests_of(record: Seq<Request>) -> Seq<(Device, Seq<u8>, usize)> {
    record.map_values(|request: Request| request@)
}

impl ReplayTransport {
    /// A transport that will report `report` and hand out `data`, and that
    /// has not been asked for anything yet.
    pub fn new(report: Result<u32, BusFault>, data: Vec<u8>) -> (transport: Self)
        ensures
            transport.report == report,
            transport.data == data,
            transport.requests@.len() == 0,
    {
        ReplayTransport { report, data, requests: Vec::new() }
    }
}

impl Transport for ReplayTransport {
    open spec fn admits(
        &self,
        before: &Self,
        device: Device,
        address_bytes: Seq<u8>,
        initial: Seq<u8>,
        filled: Seq<u8>,
        report: Result<u32, BusFault>,
    ) -> bool {
        &&& self.report == before.report
        &&& self.data@ == before.data@
        &&& requests_of(self.requests@) == requests_of(before.requests@).push(
            (device, address_bytes, initial.len() as usize),
        )
        &&& report == before.report
        &&& filled == overwritten(initial, before.data@)
    }

    fn transfer(&mut self, device: Device, address_bytes: &[u8], out: &mut [u8]) -> (report: Result<
        u32,
        BusFault,
    >) {
        let ghost initial = out@;
        let ghost recorded = self.requests@;
        self.requests.push(
            Request { device, address_bytes: slice_to_vec(address_bytes), size: out.len() },
        );
        assert(requests_of(self.requests@) =~= requests_of(recorded).push(
            (device, address_bytes@, initial.len() as usize),
        ));
        let mut i: usize = 0;
        while i < out.len() && i < self.data.len()
            invariant
                out@.len() == initial.len(),
                i <= out@.len(),
                i <= self.data@.len(),
                forall|j: int| 0 <= j < i ==> out@[j] == self.data@[j],
                forall|j: int| i <= j < initial.len() ==> out@[j] == initial[j],
            decreases out@.len() - i,
        {
            out[i] = self.data[i];
            i += 1;
        }
        assert(out@ =~= overwritten(initial, self.data@));
        match &self.report {
            Ok(completed) => Ok(*completed),
            Err(fault) => Err(fault.clone()),
        }
    }
}

/// A read within the bound over a replaying transport that reports both
/// phases completed, and that holds as many bytes as are asked for, returns
/// those bytes. The transport has then one more request on record: the
/// address bytes of the offset, and the size.
pub proof fn lemma_replayed_read_returns_the_data(
    before: ReplayTransport,
    after: ReplayTransport,
    device: Device,
    offset: u16,
    size: usize,
    result: Result<Vec<u8>, PostBoxError>,
)
    requires
        size <= MAX_POST_BOX_SIZE,
        before.report == Ok::<u32, BusFault>(MESSAGES_EXPECTED),
        before.data@.len() == size,
        read_by_one_exchange(before, after, device, offset, size, result),
    ensures
        bytes_of(result) == Ok::<Seq<u8>, PostBoxError>(before.data@),
        requests_of(after.requests@) == requests_of(before.requests@).push(
            (device, encoded(offset), size),
        ),
{
    assert(forall|initial: Seq<u8>|
        initial.len() == size ==> #[trigger] overwritten(initial, before.data@) =~= before.data@);
}

} // verus!
