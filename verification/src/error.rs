//! What the caller is told when a read fails: the failure with what was
//! asked for, and the lines that describe it.

use vstd::prelude::*;
use vstd::string::StringExecFns;
use crate::text::{decimal, push_decimal};
use crate::transfer::{bus_path, incomplete_text, BusError, BusStage, Device, IncompleteTransferError};

verus! {

/// A read was asked for of more bytes than a post-box can hold.
#[derive(Clone, Copy, Debug, PartialEq, Eq, Structural)]
pub struct SizeBoundsError {
    pub requested: usize,
    pub max: usize,
}

/// The words in which a size over the bound is refused.
pub open spec fn size_bounds_text(max: usize) -> Seq<char> {
    "Maximum post-box size if "@ + decimal(max as nat) + " bytes"@
}

impl SizeBoundsError {
    /// The refusal, which names the bound.
    pub fn message(&self) -> (message: String)
        ensures
            message@ == size_bounds_text(self.max),
    {
        let mut message = String::new();
        message.append("Maximum post-box size if ");
        push_decimal(&mut message, self.max as u64);
        message.append(" bytes");
        message
    }
}

/// Why a read failed.
#[derive(Debug, PartialEq, Eq)]
pub enum Cause {
    /// More bytes were asked for than a post-box can hold. Nothing was asked
    /// of the bus.
    SizeBounds(SizeBoundsError),
    /// The bus failed, and with it the exchange.
    Bus(BusError),
    /// The exchange ended before both of its phases were completed.
    IncompleteTransfer(IncompleteTransferError),
}

impl Clone for Cause {
    fn clone(&self) -> (copy: Self)
        ensures
            copy == *self,
    {
        match self {
            Cause::SizeBounds(bounds) => Cause::SizeBounds(*bounds),
            Cause::Bus(bus) => Cause::Bus(bus.clone()),
            Cause::IncompleteTransfer(incomplete) => Cause::IncompleteTransfer(*incomplete),
        }
    }
}

/// A failed read: what was asked for, of which device, and why it failed.
#[derive(Debug, PartialEq, Eq)]
pub struct PostBoxError {
    pub device: Device,
    pub offset: u16,
    pub size: usize,
    pub cause: Cause,
}

impl Clone for PostBoxError {
    fn clone(&self) -> (copy: Self)
        ensures
            copy == *self,
    {
        PostBoxError {
            device: self.device,
            offset: self.offset,
            size: self.size,
            cause: self.cause.clone(),
        }
    }
}

/// The words that say which read failed.
pub open spec fn read_context(offset: u16, size: usize) -> Seq<char> {
    "Unable to read post-box at +"@ + decimal(offset as nat) + ", size="@ + decimal(size as nat)
}

/// The words that say which device could not be opened.
pub open spec fn open_context(device: Device) -> Seq<char> {
    "Unable to open "@ + bus_path(device.bus) + " @"@ + decimal(device.address as nat)
}

/// The words that say that the exchange itself failed.
pub open spec fn transfer_context() -> Seq<char> {
    "Unable to complete i2c transfer"@
}

/// The lines that describe a failed read, each the cause of the one before
/// it.
pub open spec fn chain_text(error: PostBoxError) -> Seq<Seq<char>> {
    match error.cause {
        Cause::SizeBounds(bounds) => seq![size_bounds_text(bounds.max)],
        Cause::Bus(bus) => match bus.fault.stage {
            BusStage::Open => seq![open_context(bus.device), bus.fault.detail@],
            BusStage::Transfer => seq![
                read_context(error.offset, error.size),
                transfer_context(),
                bus.fault.detail@,
            ],
        },
        Cause::IncompleteTransfer(incomplete) => seq![
            read_context(error.offset, error.size),
            incomplete_text(incomplete.messages_completed, incomplete.messages_expected),
        ],
    }
}

impl PostBoxError {
    fn read_context(&self) -> (line: String)
        ensures
            line@ == read_context(self.offset, self.size),
    {
        let mut line = String::new();
        line.append("Unable to read post-box at +");
        push_decimal(&mut line, self.offset as u64);
        line.append(", size=");
        push_decimal(&mut line, self.size as u64);
        line
    }

    fn open_context(device: &Device) -> (line: String)
        ensures
            line@ == open_context(*device),
    {
        let mut line = String::new();
        line.append("Unable to open ");
        line.append(device.path().as_str());
        line.append(" @");
        push_decimal(&mut line, device.address as u64);
        line
    }

    /// The description of the failure, line by line: first what could not be
    /// done, then each cause in turn, down to what the bus reported.
    pub fn chain(&self) -> (lines: Vec<String>)
        ensures
            lines.deep_view() == chain_text(*self),
    {
        let mut lines: Vec<String> = Vec::new();
        match &self.cause {
            Cause::SizeBounds(bounds) => {
                lines.push(bounds.message());
            },
            Cause::Bus(bus) => {
                match bus.fault.stage {
                    BusStage::Open => {
                        lines.push(Self::open_context(&bus.device));
                    },
                    BusStage::Transfer => {
                        lines.push(self.read_context());
                        let mut line = String::new();
                        line.append("Unable to complete i2c transfer");
                        lines.push(line);
                    },
                }
                lines.push(bus.fault.detail.clone());
            },
            Cause::IncompleteTransfer(incomplete) => {
                lines.push(self.read_context());
                lines.push(incomplete.message());
            },
        }
        lines
    }
}

} // verus!
