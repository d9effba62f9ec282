//! Read-write memory over borrowed bytes.

use super::{byte_at, byte_read, byte_stored, Memory};
use vstd::prelude::*;

verus! {

/// Read-write memory over a borrowed range of bytes, mapped from address 0.
pub struct Ram<'a> {
    buf: &'a mut [u8],
}

impl<'a> View for Ram<'a> {
    type V = Seq<u8>;

    /// The bytes that the memory holds now.
    closed spec fn view(&self) -> Seq<u8> {
        self.buf@
    }
}

impl<'a> Ram<'a> {
    /// Maps `buf` as read-write memory.
    pub fn new(buf: &'a mut [u8]) -> (r: Ram<'a>)
        ensures
            r@ == old(buf)@,
    {
        Ram { buf }
    }
}

impl<'a> Memory for Ram<'a> {
    open spec fn peek(&self, addr: u16) -> Option<u8> {
        byte_at(self@, addr)
    }

    open spec fn set_to(&self, addr: u16, value: u8, post: &Self) -> bool {
        post@ == byte_stored(self@, addr, value)
    }

    open spec fn read_to(&self, addr: u16, value: u8, post: &Self) -> bool {
        post@ == self@ && value == byte_read(self@, addr)
    }

    open spec fn write_to(&self, addr: u16, value: u8, post: &Self) -> bool {
        post@ == byte_stored(self@, addr, value)
    }

    #[inline]
    fn get(&self, addr: u16) -> (r: Option<u8>) {
        let i: usize = addr as usize;
        if i < self.buf.len() {
            Some(self.buf[i])
        } else {
            None
        }
    }

    #[inline]
    fn set(&mut self, addr: u16, value: u8) {
        let i: usize = addr as usize;
        if i < self.buf.len() {
            self.buf[i] = value;
        }
    }

    #[inline]
    fn read(&mut self, addr: u16) -> (r: u8) {
        match Memory::get(self, addr) {
            Some(value) => value,
            None => 0,
        }
    }

    #[inline]
    fn write(&mut self, addr: u16, value: u8) {
        self.set(addr, value);
    }
}

impl<'a> vstd::std_specs::core::IndexSpecImpl<u16> for Ram<'a> {
    /// An index is usable when it is an address of the memory.
    open spec fn index_req(&self, index: &u16) -> bool {
        *index < self@.len()
    }
}

impl<'a> core::ops::Index<u16> for Ram<'a> {
    type Output = u8;

    /// The byte at an address of the memory.
    fn index(&self, index: u16) -> (r: &u8)
        ensures
            *r == self@[index as int],
    {
        &self.buf[index as usize]
    }
}

impl<'a> AsRef<[u8]> for Ram<'a> {
    /// The bytes of the memory.
    fn as_ref(&self) -> (r: &[u8])
        ensures
            r@ == self@,
    {
        self.buf
    }
}

impl<'a> AsMut<[u8]> for Ram<'a> {
    /// The bytes of the memory, for changing them.
    fn as_mut(&mut self) -> (r: &mut [u8])
        ensures
            r@ == old(self)@,
            final(self)@ == final(r)@,
    {
        self.buf
    }
}

/// An address past the end of the memory holds nothing: a memory of fewer
/// than 64 KiB has no byte at `0xFFFF`.
pub proof fn lemma_ram_ends(ram: Ram, addr: u16)
    ensures
        ram.peek(addr) is None <==> addr >= ram@.len(),
        ram@.len() < 0x1_0000 ==> ram.peek(0xffff) is None,
{
}

/// A byte written to an address of the memory is the byte that the next read
/// of that address gives, and a write past the end of the memory is lost: the
/// read then gives zero.
pub proof fn lemma_ram_round_trip(pre: Ram, mid: Ram, post: Ram, addr: u16, value: u8, got: u8)
    requires
        pre.write_to(addr, value, &mid),
        mid.read_to(addr, got, &post),
    ensures
        got == if addr < pre@.len() { value } else { 0 },
        mid.peek(addr) == if addr < pre@.len() { Some(value) } else { None },
        post@ == mid@,
        post@.len() == pre@.len(),
{
}

} // verus!
