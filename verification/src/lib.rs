//! Reading a post-box, a small block of registers that a device on a
//! two-wire bus keeps as a mailbox for commands and status.
//!
//! A read is one exchange with the device: the offset of the block is
//! written as one or two address bytes ([`address`]), and the block is read
//! back in the same bus operation ([`transfer`]). [`postbox`] bounds the size
//! of a read, makes the exchange over a [`transfer::Transport`], and hands
//! out the bytes only where both phases of the exchange were completed;
//! [`error`] says what the caller is told otherwise. [`replay`] is a
//! transport that needs no bus.
//!
//! [`greeter`] has nothing to do with any of this: it is a counter that
//! greets.

pub mod address;
pub mod error;
pub mod greeter;
pub mod postbox;
pub mod replay;
pub mod text;
pub mod transfer;
