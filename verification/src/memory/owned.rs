//! Vectors and boxes as memory.

use super::{byte_at, byte_read, byte_stored, Memory};
use vstd::prelude::*;

verus! {

/// A vector of bytes is read-write memory, mapped from address 0.
impl Memory for Vec<u8> {
    open spec fn peek(&self, addr: u16) -> Option<u8> {
        byte_at(self@, addr)
    }

    open spec fn set_to(&self, addr: u16, value: u8, post: &Self) -> bool {
        post@ == byte_stored(self@, addr, value)
    }

    open spec fn read_to(&self, addr: u16, value: u8, post: &Self) -> bool {
        post@ == self@ && value == byte_read(self@, addr)
    }

    open spec fn write_to(&self, addr: u16, value: u8, post: &Self) -> bool {
        post@ == byte_stored(self@, addr, value)
    }

    #[inline]
    fn get(&self, addr: u16) -> (r: Option<u8>) {
        let i: usize = addr as usize;
        if i < self.len() {
            Some(self[i])
        } else {
            None
        }
    }

    #[inline]
    fn set(&mut self, addr: u16, value: u8) {
        let i: usize = addr as usize;
        if i < self.len() {
            self[i] = value;
        }
    }

    #[inline]
    fn read(&mut self, addr: u16) -> (r: u8) {
        match Memory::get(self, addr) {
            Some(value) => value,
            None => 0,
        }
    }

    #[inline]
    fn write(&mut self, addr: u16, value: u8) {
        Memory::set(self, addr, value);
    }
}

/// A boxed memory is the memory in the box.
impl<M: Memory> Memory for Box<M> {
    open spec fn peek(&self, addr: u16) -> Option<u8> {
        (**self).peek(addr)
    }

    open spec fn set_to(&self, addr: u16, value: u8, post: &Self) -> bool {
        (**self).set_to(addr, value, &**post)
    }

    open spec fn read_to(&self, addr: u16, value: u8, post: &Self) -> bool {
        (**self).read_to(addr, value, &**post)
    }

    open spec fn write_to(&self, addr: u16, value: u8, post: &Self) -> bool {
        (**self).write_to(addr, value, &**post)
    }

    #[inline]
    fn get(&self, addr: u16) -> (r: Option<u8>) {
        (**self).get(addr)
    }

    #[inline]
    fn set(&mut self, addr: u16, value: u8) {
        (**self).set(addr, value)
    }

    #[inline]
    fn read(&mut self, addr: u16) -> (r: u8) {
        (**self).read(addr)
    }

    #[inline]
    fn write(&mut self, addr: u16, value: u8) {
        (**self).write(addr, value)
    }
}

/// A boxed range of bytes is read-write memory, mapped from address 0.
impl Memory for Box<[u8]> {
    open spec fn peek(&self, addr: u16) -> Option<u8> {
        byte_at(self@, addr)
    }

    open spec fn set_to(&self, addr: u16, value: u8, post: &Self) -> bool {
        post@ == byte_stored(self@, addr, value)
    }

    open spec fn read_to(&self, addr: u16, value: u8, post: &Self) -> bool {
        post@ == self@ && value == byte_read(self@, addr)
    }

    open spec fn write_to(&self, addr: u16, value: u8, post: &Self) -> bool {
        post@ == byte_stored(self@, addr, value)
    }

    #[inline]
    fn get(&self, addr: u16) -> (r: Option<u8>) {
        let i: usize = addr as usize;
        if i < self.len() {
            Some(self[i])
        } else {
            None
        }
    }

    #[inline]
    fn set(&mut self, addr: u16, value: u8) {
        let i: usize = addr as usize;
        if i < self.len() {
            self[i] = value;
        }
    }

    #[inline]
    fn read(&mut self, addr: u16) -> (r: u8) {
        match Memory::get(self, addr) {
            Some(value) => value,
            None => 0,
        }
    }

    #[inline]
    fn write(&mut self, addr: u16, value: u8) {
        Memory::set(self, addr, value);
    }
}

} // verus!
