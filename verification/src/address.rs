//! Register offsets as the address bytes that go out on the wire.

use vstd::prelude::*;

verus! {

/// The address bytes of `offset`: the offset itself in one byte where it fits
/// in one, else its high byte followed by its low byte.
pub open spec fn encoded(offset: u16) -> Seq<u8> {
    if offset <= 0xff {
        seq![offset as u8]
    } else {
        seq![(offset / 0x100) as u8, (offset % 0x100) as u8]
    }
}

/// The bytes that select a register of the device, together with the offset
/// that they were made from.
#[derive(Debug, PartialEq, Eq)]
pub struct AddressBytes {
    offset: u16,
    bytes: Vec<u8>,
}

impl View for AddressBytes {
    type V = Seq<u8>;

    closed spec fn view(&self) -> Seq<u8> {
        self.bytes@
    }
}

impl AddressBytes {
    #[verifier::type_invariant]
    spec fn inv(&self) -> bool {
        self.bytes@ == encoded(self.offset)
    }

    /// The offset that the bytes stand for.
    pub closed spec fn spec_offset(&self) -> u16 {
        self.offset
    }

    /// The offset that the bytes stand for.
    #[verifier::when_used_as_spec(spec_offset)]
    pub fn offset(&self) -> (offset: u16)
        ensures
            offset == self.offset(),
            self@ == encoded(offset),
    {
        proof {
            use_type_invariant(self);
        }
        self.offset
    }

    /// The bytes, in the order in which they are sent.
    pub fn as_slice(&self) -> (bytes: &[u8])
        ensures
            bytes@ == self@,
            bytes@ == encoded(self.offset()),
    {
        proof {
            use_type_invariant(self);
        }
        self.bytes.as_slice()
    }
}

/// Encodes a register offset in as few bytes as hold it, most significant
/// byte first.
pub fn encode(offset: u16) -> (bytes: AddressBytes)
    ensures
        bytes.offset() == offset,
        bytes@ == encoded(offset),
        bytes@.len() == 1 <==> offset <= 0xff,
        offset <= 0xff ==> bytes@ == seq![offset as u8],
        offset > 0xff ==> bytes@.len() == 2 && bytes@[0] * 0x100 + bytes@[1] == offset,
{
    let mut bytes: Vec<u8> = Vec::new();
    if offset <= 0xff {
        bytes.push(offset as u8);
    } else {
        bytes.push((offset / 0x100) as u8);
        bytes.push((offset % 0x100) as u8);
    }
    assert(bytes@ == encoded(offset));
    AddressBytes { offset, bytes }
}

/// No two offsets share their address bytes.
pub proof fn lemma_encoded_is_injective(a: u16, b: u16)
    requires
        encoded(a) == encoded(b),
    ensures
        a == b,
{
    if a <= 0xff {
        assert(encoded(b).len() == 1);
        assert(encoded(a)[0] == a && encoded(b)[0] == b);
    } else {
        assert(encoded(b).len() == 2);
        assert(encoded(a)[0] * 0x100 + encoded(a)[1] == a);
        assert(encoded(b)[0] * 0x100 + encoded(b)[1] == b);
    }
}

} // verus!
