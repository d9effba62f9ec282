//! Byte ranges as memory.

use super::{byte_at, byte_read, byte_stored, Memory};
use vstd::prelude::*;

verus! {

/// A shared range of bytes is read-only memory, mapped from address 0.
impl<'a> Memory for &'a [u8] {
    open spec fn peek(&self, addr: u16) -> Option<u8> {
        byte_at(self@, addr)
    }

    open spec fn set_to(&self, addr: u16, value: u8, post: &Self) -> bool {
        post@ == self@
    }

    open spec fn read_to(&self, addr: u16, value: u8, post: &Self) -> bool {
        post@ == self@ && value == byte_read(self@, addr)
    }

    open spec fn write_to(&self, addr: u16, value: u8, post: &Self) -> bool {
        post@ == self@
    }

    #[inline]
    fn get(&self, addr: u16) -> (r: Option<u8>) {
        let i: usize = addr as usize;
        if i < self.len() {
            Some(self[i])
        } else {
            None
        }
    }

    #[inline]
    fn set(&mut self, _addr: u16, _value: u8) {
        // Do nothing since this data structure is read-only.
    }

    #[inline]
    fn read(&mut self, addr: u16) -> (r: u8) {
        match Memory::get(self, addr) {
            Some(value) => value,
            None => 0,
        }
    }

    #[inline]
    fn write(&mut self, _addr: u16, _value: u8) {
        // Do nothing since this data structure is read-only.
    }
}

/// A mutable range of bytes is read-write memory, mapped from address 0.
impl<'a> Memory for &'a mut [u8] {
    open spec fn peek(&self, addr: u16) -> Option<u8> {
        byte_at(self@, addr)
    }

    open spec fn set_to(&self, addr: u16, value: u8, post: &Self) -> bool {
        post@ == byte_stored(self@, addr, value)
    }

    open spec fn read_to(&self, addr: u16, value: u8, post: &Self) -> bool {
        post@ == self@ && value == byte_read(self@, addr)
    }

    open spec fn write_to(&self, addr: u16, value: u8, post: &Self) -> bool {
        post@ == byte_stored(self@, addr, value)
    }

    #[inline]
    fn get(&self, addr: u16) -> (r: Option<u8>) {
        let i: usize = addr as usize;
        if i < self.len() {
            Some(self[i])
        } else {
            None
        }
    }

    #[inline]
    fn set(&mut self, addr: u16, value: u8) {
        let i: usize = addr as usize;
        if i < self.len() {
            self[i] = value;
        }
    }

    #[inline]
    fn read(&mut self, addr: u16) -> (r: u8) {
        match Memory::get(self, addr) {
            Some(value) => value,
            None => 0,
        }
    }

    #[inline]
    fn write(&mut self, addr: u16, value: u8) {
        Memory::set(self, addr, value);
    }
}

} // verus!
