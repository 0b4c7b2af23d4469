//! One write-then-read exchange with a device on the bus, and the verdict
//! on whether both of its phases were completed.

use vstd::prelude::*;
use vstd::string::StringExecFns;
use crate::address::AddressBytes;
use crate::text::{decimal, push_decimal};

verus! {

/// The phases of an exchange: the write of the address bytes, then the read
/// of the data.
pub const MESSAGES_EXPECTED: u32 = 2;

/// A device on a bus: the index of the bus and the address of the device on
/// it, seven or ten bits wide.
#[derive(Clone, Copy, Debug, PartialEq, Eq, Structural)]
pub struct Device {
    pub bus: u8,
    pub address: u16,
}

/// The device at `address` on the bus with index `bus`.
pub open spec fn device_at(bus: u8, address: u16) -> Device {
    Device { bus, address }
}

/// The path of the device node of the bus with index `bus`.
pub open spec fn bus_path(bus: u8) -> Seq<char> {
    "/dev/i2c-"@ + decimal(bus as nat)
}

impl Device {
    /// The path of the device node through which the device is reached.
    pub fn path(&self) -> (path: String)
        ensures
            path@ == bus_path(self.bus),
    {
        let mut path = String::new();
        path.append("/dev/i2c-");
        push_decimal(&mut path, self.bus as u64);
        path
    }
}

/// The step at which the bus failed.
#[derive(Clone, Copy, Debug, PartialEq, Eq, Structural)]
pub enum BusStage {
    /// The device could not be opened.
    Open,
    /// The device was opened and the exchange with it failed: the device did
    /// not answer, the bus was in fault, or the exchange timed out.
    Transfer,
}

/// A failure of the bus, as the transport reports it.
#[derive(Debug, PartialEq, Eq)]
pub struct BusFault {
    pub stage: BusStage,
    /// What the transport says of the failure.
    pub detail: String,
}

impl Clone for BusFault {
    fn clone(&self) -> (copy: Self)
        ensures
            copy == *self,
    {
        BusFault { stage: self.stage, detail: self.detail.clone() }
    }
}

/// A failed exchange: the device and the offset that it was for, and the
/// failure of the bus.
#[derive(Debug, PartialEq, Eq)]
pub struct BusError {
    pub device: Device,
    pub offset: u16,
    pub fault: BusFault,
}

impl Clone for BusError {
    fn clone(&self) -> (copy: Self)
        ensures
            copy == *self,
    {
        BusError { device: self.device, offset: self.offset, fault: self.fault.clone() }
    }
}

/// Anything that can carry out a write-then-read exchange with a device:
/// the bus driver of the platform, or something that stands in for it.
///
/// What is proved of an exchange is proved from what `transfer` promises
/// here. A transport that was verified keeps that promise. Of one that was
/// not, nothing is known but that the buffer keeps its length, as every
/// slice does: unless it says otherwise, it admits every exchange.
pub trait Transport {
    /// Whether one transfer may take the transport from `before` to `self`:
    /// asked to write `address_bytes` to `device` and then to read into a
    /// buffer that held `initial`, it left `filled` in the buffer and
    /// reported `report`.
    open spec fn admits(
        &self,
        before: &Self,
        device: Device,
        address_bytes: Seq<u8>,
        initial: Seq<u8>,
        filled: Seq<u8>,
        report: Result<u32, BusFault>,
    ) -> bool {
        true
    }

    /// Writes `address_bytes` to `device` and then reads from it as many
    /// bytes as `out` holds, both in one bus operation that no other can come
    /// between. Returns how many of the two phases were completed, or the
    /// failure of the bus.
    fn transfer(&mut self, device: Device, address_bytes: &[u8], out: &mut [u8]) -> (report: Result<
        u32,
        BusFault,
    >)
        ensures
            final(out)@.len() == old(out)@.len(),
            final(self).admits(
                old(self),
                device,
                address_bytes@,
                old(out)@,
                final(out)@,
                report,
            ),
    ;
}

/// How an exchange ended: the phases that were completed, of those that it
/// was made of.
#[derive(Clone, Copy, Debug, PartialEq, Eq, Structural)]
pub struct TransferOutcome {
    pub messages_completed: u32,
    pub messages_expected: u32,
}

/// An exchange of which not every phase was completed. What the buffer holds
/// after it is not data of the device.
#[derive(Clone, Copy, Debug, PartialEq, Eq, Structural)]
pub struct IncompleteTransferError {
    pub messages_completed: u32,
    pub messages_expected: u32,
}

/// The outcome of an exchange with `device` for `offset` on which the
/// transport reported `report`: the count of the phases that it completed,
/// beside the count of those that an exchange has, or its failure with the
/// device and the offset.
pub open spec fn outcome_of(device: Device, offset: u16, report: Result<u32, BusFault>) -> Result<
    TransferOutcome,
    BusError,
> {
    match report {
        Ok(completed) => Ok(
            TransferOutcome {
                messages_completed: completed,
                messages_expected: MESSAGES_EXPECTED,
            },
        ),
        Err(fault) => Err(BusError { device, offset, fault }),
    }
}

/// Carries out one exchange with `device` over `transport`: the write of
/// `address_bytes` and the read that fills `out`. It does not judge the
/// outcome, and does not try again: a failure of the bus is passed on, with
/// the device and the offset that the exchange was for.
pub fn execute<T: Transport>(
    transport: &mut T,
    device: Device,
    address_bytes: &AddressBytes,
    out: &mut [u8],
) -> (executed: Result<TransferOutcome, BusError>)
    ensures
        final(out)@.len() == old(out)@.len(),
        exists|report: Result<u32, BusFault>| #[trigger]
            final(transport).admits(
                old(transport),
                device,
                address_bytes@,
                old(out)@,
                final(out)@,
                report,
            ) && executed == outcome_of(device, address_bytes.offset(), report),
{
    match transport.transfer(device, address_bytes.as_slice(), out) {
        Ok(completed) => Ok(
            TransferOutcome { messages_completed: completed, messages_expected: MESSAGES_EXPECTED },
        ),
        Err(fault) => Err(BusError { device, offset: address_bytes.offset(), fault }),
    }
}

/// The verdict on an outcome: accepted where as many phases were completed
/// as were expected, else refused with the two counts.
pub open spec fn validated(outcome: TransferOutcome) -> Result<(), IncompleteTransferError> {
    if outcome.messages_completed == outcome.messages_expected {
        Ok(())
    } else {
        Err(
            IncompleteTransferError {
                messages_completed: outcome.messages_completed,
                messages_expected: outcome.messages_expected,
            },
        )
    }
}

/// Judges an outcome: accepts it where every phase was completed, and
/// refuses any other with the two counts.
pub fn validate(outcome: TransferOutcome) -> (verdict: Result<(), IncompleteTransferError>)
    ensures
        verdict == validated(outcome),
        verdict is Ok <==> outcome.messages_completed == outcome.messages_expected,
{
    if outcome.messages_completed == outcome.messages_expected {
        Ok(())
    } else {
        Err(
            IncompleteTransferError {
                messages_completed: outcome.messages_completed,
                messages_expected: outcome.messages_expected,
            },
        )
    }
}

/// The words in which an incomplete exchange is reported.
pub open spec fn incomplete_text(completed: u32, expected: u32) -> Seq<char> {
    "Only "@ + decimal(completed as nat) + "/"@ + decimal(expected as nat)
        + " messages were transmitted successfully "@
}

impl IncompleteTransferError {
    /// The report of the failure, with both counts.
    pub fn message(&self) -> (message: String)
        ensures
            message@ == incomplete_text(self.messages_completed, self.messages_expected),
    {
        let mut message = String::new();
        message.append("Only ");
        push_decimal(&mut message, self.messages_completed as u64);
        message.append("/");
        push_decimal(&mut message, self.messages_expected as u64);
        message.append(" messages were transmitted successfully ");
        message
    }
}

} // verus!
