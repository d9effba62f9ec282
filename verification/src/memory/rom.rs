//! Read-only memory over borrowed bytes.

use super::{byte_at, byte_read, Memory, RangeOverflow, ADDRESS_SPACE};
use vstd::prelude::*;

verus! {

/// Read-only memory over a borrowed range of bytes, mapped from address 0.
/// Every way of writing to it does nothing.
pub struct Rom<'a> {
    buf: &'a [u8],
}

impl<'a> View for Rom<'a> {
    type V = Seq<u8>;

    /// The bytes that the memory holds.
    closed spec fn view(&self) -> Seq<u8> {
        self.buf@
    }
}

impl<'a> Rom<'a> {
    /// Maps `buf` as read-only memory.
    pub fn new(buf: &'a [u8]) -> (r: Rom<'a>)
        ensures
            r@ == buf@,
    {
        Rom { buf }
    }
}

impl<'a> Memory for Rom<'a> {
    open spec fn peek(&self, addr: u16) -> Option<u8> {
        byte_at(self@, addr)
    }

    open spec fn set_to(&self, addr: u16, value: u8, post: &Self) -> bool {
        *post == *self
    }

    open spec fn read_to(&self, addr: u16, value: u8, post: &Self) -> bool {
        *post == *self && value == byte_read(self@, addr)
    }

    open spec fn write_to(&self, addr: u16, value: u8, post: &Self) -> bool {
        *post == *self
    }

    #[inline]
    fn get(&self, addr: u16) -> (r: Option<u8>) {
        let i: usize = addr as usize;
        if i < self.buf.len() {
            Some(self.buf[i])
        } else {
            None
        }
    }

    #[inline]
    fn set(&mut self, _addr: u16, _value: u8) {
        // Do nothing since this data structure is read-only.
    }

    #[inline]
    fn read(&mut self, addr: u16) -> (r: u8) {
        match Memory::get(self, addr) {
            Some(value) => value,
            None => 0,
        }
    }

    #[inline]
    fn write(&mut self, _addr: u16, _value: u8) {
        // Do nothing since this data structure is read-only.
    }

    #[inline]
    fn set_slice(&mut self, addr: u16, buf: &[u8]) -> (r: Result<(), RangeOverflow>) {
        let n: usize = buf.len();
        if n > ADDRESS_SPACE - addr as usize {
            return Err(RangeOverflow { addr, len: n });
        }
        proof {
            let trace = Seq::new((n + 1) as nat, |i: int| *self);
            assert(trace[0] == *self);
            assert(forall|i: int|
                0 <= i < n ==> #[trigger] trace[i].set_to(super::span_addr(addr, i), buf@[i], &trace[i + 1]));
        }
        Ok(())
    }

    #[inline]
    fn write_slice(&mut self, addr: u16, buf: &[u8]) -> (r: Result<(), RangeOverflow>) {
        let n: usize = buf.len();
        if n > ADDRESS_SPACE - addr as usize {
            return Err(RangeOverflow { addr, len: n });
        }
        proof {
            let trace = Seq::new((n + 1) as nat, |i: int| *self);
            assert(trace[0] == *self);
            assert(forall|i: int|
                0 <= i < n ==> #[trigger] trace[i].write_to(
                    super::span_addr(addr, i),
                    buf@[i],
                    &trace[i + 1],
                ));
        }
        Ok(())
    }
}

impl<'a> vstd::std_specs::core::IndexSpecImpl<u16> for Rom<'a> {
    /// An index is usable when it is an address of the memory.
    open spec fn index_req(&self, index: &u16) -> bool {
        *index < self@.len()
    }
}

impl<'a> core::ops::Index<u16> for Rom<'a> {
    type Output = u8;

    /// The byte at an address of the memory.
    fn index(&self, index: u16) -> (r: &u8)
        ensures
            *r == self@[index as int],
    {
        &self.buf[index as usize]
    }
}

impl<'a> AsRef<[u8]> for Rom<'a> {
    /// The bytes of the memory.
    fn as_ref(&self) -> (r: &[u8])
        ensures
            r@ == self@,
    {
        self.buf
    }
}

/// Neither a write nor a store changes what the memory holds: every address
/// still answers as before.
pub proof fn lemma_rom_keeps_bytes(pre: Rom, post: Rom, addr: u16, value: u8)
    requires
        pre.write_to(addr, value, &post) || pre.set_to(addr, value, &post),
    ensures
        post@ == pre@,
        forall|a: u16| #[trigger] post.peek(a) == pre.peek(a),
{
}

} // verus!
