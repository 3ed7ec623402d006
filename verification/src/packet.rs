//! A packet of encoded data handed out by the encoder.

use crate::buffer::OutputBuffer;
use crate::flags::SvtFlags;
use std::ops::Deref;
use vstd::prelude::*;
use vstd::slice::slice_to_vec;

verus! {

/// Encoded data in borrowed form, together with the native buffer it lies in.
///
/// The bytes can be read for as long as the packet lives. A packet cannot be
/// copied or cloned, and [`Packet::release`] uses it up, so the buffer behind it
/// goes back to the pool at most once.
#[derive(Debug)]
pub struct Packet<'a> {
    /// The flags of the packet.
    pub flags: SvtFlags,
    data: &'a [u8],
    p_buffer: usize,
}

impl<'a> Packet<'a> {
    /// The flag word of the packet.
    pub closed spec fn spec_flags(&self) -> u32 {
        self.flags@
    }

    /// The encoded bytes.
    pub closed spec fn spec_data(&self) -> Seq<u8> {
        self.data@
    }

    /// Address of the native buffer header.
    pub closed spec fn spec_buffer(&self) -> usize {
        self.p_buffer
    }

    /// Wraps what a successful receive call handed out. The flag word is kept
    /// bit for bit, the bytes are borrowed as they are.
    pub fn new(output: OutputBuffer<'a>) -> (packet: Packet<'a>)
        ensures
            packet.spec_flags() == output.flags,
            packet.spec_data() == output.data@,
            packet.spec_buffer() == output.p_buffer,
    {
        let flags = SvtFlags::from_bits(output.flags).unwrap();
        Packet { flags, data: output.data, p_buffer: output.p_buffer }
    }

    /// The flags of the packet.
    pub fn flags(&self) -> (flags: SvtFlags)
        ensures
            flags@ == self.spec_flags(),
    {
        self.flags
    }

    /// A copy of the encoded bytes, owned by the caller. The packet stays, for
    /// its buffer is still to be released.
    pub fn to_vec(&self) -> (bytes: Vec<u8>)
        ensures
            bytes@ == self.spec_data(),
    {
        slice_to_vec(self.data)
    }

    /// Ends the packet and yields the address of its buffer, which is to be
    /// given back to the pool with one `ReleaseOutBuffer` call.
    pub fn release(self) -> (buffer: usize)
        ensures
            buffer == self.spec_buffer(),
    {
        self.p_buffer
    }
}

impl<'a> Deref for Packet<'a> {
    type Target = [u8];

    /// The encoded bytes.
    fn deref(&self) -> (bytes: &[u8])
        ensures
            bytes@ == self.spec_data(),
    {
        self.data
    }
}

} // verus!
