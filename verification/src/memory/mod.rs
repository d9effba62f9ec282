//! Addressable memory: the capability that a processor and its host share,
//! and the plain backings of it.

use vstd::prelude::*;

mod owned;
pub mod ram;
pub mod rom;
mod slices;

pub use ram::Ram;
pub use rom::Rom;

verus! {

/// Number of addresses that a 16-bit address bus can name.
pub const ADDRESS_SPACE: usize = 0x1_0000;

/// A bulk operation was asked to go past the last address, `0xFFFF`.
#[derive(Debug, Clone, Copy, PartialEq, Eq, Structural)]
pub struct RangeOverflow {
    /// The address of the first byte of the rejected operation.
    pub addr: u16,
    /// The number of bytes that it was asked to cover.
    pub len: usize,
}

/// Whether `len` consecutive addresses starting at `addr` all exist.
pub open spec fn span_fits(addr: u16, len: nat) -> bool {
    addr + len <= ADDRESS_SPACE
}

/// The `i`-th address of the span that starts at `addr`.
pub open spec fn span_addr(addr: u16, i: int) -> u16 {
    (addr + i) as u16
}

/// What a plain byte store answers at `addr`: the byte there, or nothing past
/// its end.
pub open spec fn byte_at(bytes: Seq<u8>, addr: u16) -> Option<u8> {
    if addr < bytes.len() {
        Some(bytes[addr as int])
    } else {
        None
    }
}

/// What a processor reads from a plain byte store at `addr`: the byte there,
/// or zero past its end.
pub open spec fn byte_read(bytes: Seq<u8>, addr: u16) -> u8 {
    match byte_at(bytes, addr) {
        Some(value) => value,
        None => 0,
    }
}

/// A plain byte store after `value` is stored at `addr`: past its end the
/// store is dropped.
pub open spec fn byte_stored(bytes: Seq<u8>, addr: u16, value: u8) -> Seq<u8> {
    if addr < bytes.len() {
        bytes.update(addr as int, value)
    } else {
        bytes
    }
}

/// A data structure where bytes can be read and written at 16-bit addresses.
///
/// `get` and `set` inspect and patch the store without any side effect.
/// `read` and `write` are the accesses that a processor makes: a store that
/// maps devices may let them trigger whatever the device does. What each of
/// them does to a given store is said by the four specification functions,
/// which every implementation defines for itself. A store without devices
/// reads what `get` finds, or zero where nothing is mapped, and writes by
/// `set`.
///
/// Code that is not verified implements the four specification functions as
/// ordinary functions with any body: nothing calls them.
pub trait Memory: Sized {
    /// The byte that `get` finds at `addr`, or `None` where the store maps
    /// nothing.
    spec fn peek(&self, addr: u16) -> Option<u8>;

    /// Whether `set(addr, value)` may turn this store into `post`.
    spec fn set_to(&self, addr: u16, value: u8, post: &Self) -> bool;

    /// Whether `read(addr)` may return `value` and turn this store into `post`.
    spec fn read_to(&self, addr: u16, value: u8, post: &Self) -> bool;

    /// Whether `write(addr, value)` may turn this store into `post`.
    spec fn write_to(&self, addr: u16, value: u8, post: &Self) -> bool;

    /// Gets the value at the address without triggering any read related
    /// side effect. For actual reads from the processor see [`read`].
    ///
    /// [`read`]: Memory::read
    fn get(&self, addr: u16) -> (r: Option<u8>)
        ensures
            r == self.peek(addr),
    ;

    /// Sets the value at the address without triggering any write related
    /// side effect. Outside the mapped range, and in a read-only store,
    /// nothing happens. For actual writes from the processor see [`write`].
    ///
    /// [`write`]: Memory::write
    fn set(&mut self, addr: u16, value: u8)
        ensures
            old(self).set_to(addr, value, final(self)),
            old(self).peek(addr) is None ==> forall|a: u16| #[trigger]
                final(self).peek(a) == old(self).peek(a),
            final(self).peek(addr) == Some(value) || forall|a: u16| #[trigger]
                final(self).peek(a) == old(self).peek(a),
    ;

    /// Performs an actual memory read from the processor, which always gives
    /// a byte. This may trigger read related side effects like memory-mapped
    /// I/O; to avoid them see [`get`].
    ///
    /// [`get`]: Memory::get
    fn read(&mut self, addr: u16) -> (r: u8)
        ensures
            old(self).read_to(addr, r, final(self)),
    ;

    /// Performs an actual memory write from the processor. This may trigger
    /// write related side effects like memory-mapped I/O; to avoid them see
    /// [`set`].
    ///
    /// [`set`]: Memory::set
    fn write(&mut self, addr: u16, value: u8)
        ensures
            old(self).write_to(addr, value, final(self)),
    ;

    /// Same as [`get`], but for every address of a span: `buf` receives what
    /// is stored from `addr` on. A span that does not end by `0xFFFF` is
    /// rejected, and then nothing is changed.
    ///
    /// [`get`]: Memory::get
    fn get_slice(&mut self, addr: u16, buf: &mut [Option<u8>]) -> (r: Result<(), RangeOverflow>)
        ensures
            r is Ok <==> span_fits(addr, old(buf)@.len()),
            r is Err ==> r == Err::<(), RangeOverflow>(
                RangeOverflow { addr, len: old(buf)@.len() as usize },
            ) && final(buf)@ == old(buf)@,
            *final(self) == *old(self),
            final(buf)@.len() == old(buf)@.len(),
            r is Ok ==> forall|i: int|
                0 <= i < old(buf)@.len() ==> #[trigger] final(buf)@[i] == old(self).peek(
                    span_addr(addr, i),
                ),
    {
        let n: usize = buf.len();
        if n > ADDRESS_SPACE - addr as usize {
            return Err(RangeOverflow { addr, len: n });
        }
        let mut i: usize = 0;
        while i < n
            invariant
                i <= n,
                n == buf@.len(),
                n + addr <= ADDRESS_SPACE,
                *self == *old(self),
                forall|j: int| 0 <= j < i ==> #[trigger] buf@[j] == old(self).peek(span_addr(addr, j)),
            decreases n - i,
        {
            let value: Option<u8> = self.get((addr as usize + i) as u16);
            buf[i] = value;
            i += 1;
        }
        Ok(())
    }

    /// Same as [`set`], but for every byte of `buf`, stored from `addr` on.
    /// A span that does not end by `0xFFFF` is rejected, and then nothing is
    /// changed.
    ///
    /// [`set`]: Memory::set
    fn set_slice(&mut self, addr: u16, buf: &[u8]) -> (r: Result<(), RangeOverflow>)
        ensures
            r is Ok <==> span_fits(addr, buf@.len()),
            r is Err ==> r == Err::<(), RangeOverflow>(RangeOverflow { addr, len: buf@.len() as usize })
                && *final(self) == *old(self),
            r is Ok ==> exists|trace: Seq<Self>|
                {
                    &&& trace.len() == buf@.len() + 1
                    &&& trace[0] == *old(self)
                    &&& trace[buf@.len() as int] == *final(self)
                    &&& forall|i: int|
                        0 <= i < buf@.len() ==> #[trigger] trace[i].set_to(span_addr(addr, i), buf@[i], &trace[i + 1])
                },
    {
        let n: usize = buf.len();
        if n > ADDRESS_SPACE - addr as usize {
            return Err(RangeOverflow { addr, len: n });
        }
        let ghost mut trace: Seq<Self> = seq![*self];
        let mut i: usize = 0;
        while i < n
            invariant
                i <= n,
                n == buf@.len(),
                n + addr <= ADDRESS_SPACE,
                trace.len() == i + 1,
                trace[0] == *old(self),
                trace[i as int] == *self,
                forall|j: int|
                    0 <= j < i ==> #[trigger] trace[j].set_to(span_addr(addr, j), buf@[j], &trace[j + 1]),
            decreases n - i,
        {
            self.set((addr as usize + i) as u16, buf[i]);
            proof {
                trace = trace.push(*self);
            }
            i += 1;
        }
        Ok(())
    }

    /// Same as [`read`], but for every address of a span: `buf` receives the
    /// bytes read from `addr` on. A span that does not end by `0xFFFF` is
    /// rejected, and then nothing is read or changed.
    ///
    /// [`read`]: Memory::read
    fn read_slice(&mut self, addr: u16, buf: &mut [u8]) -> (r: Result<(), RangeOverflow>)
        ensures
            r is Ok <==> span_fits(addr, old(buf)@.len()),
            r is Err ==> r == Err::<(), RangeOverflow>(
                RangeOverflow { addr, len: old(buf)@.len() as usize },
            ) && *final(self) == *old(self) && final(buf)@ == old(buf)@,
            final(buf)@.len() == old(buf)@.len(),
            r is Ok ==> exists|trace: Seq<Self>|
                {
                    &&& trace.len() == final(buf)@.len() + 1
                    &&& trace[0] == *old(self)
                    &&& trace[final(buf)@.len() as int] == *final(self)
                    &&& forall|i: int|
                        0 <= i < final(buf)@.len() ==> #[trigger] trace[i].read_to(span_addr(addr, i), final(buf)@[i], &trace[i + 1])
                },
    {
        let n: usize = buf.len();
        if n > ADDRESS_SPACE - addr as usize {
            return Err(RangeOverflow { addr, len: n });
        }
        let ghost mut trace: Seq<Self> = seq![*self];
        let mut i: usize = 0;
        while i < n
            invariant
                i <= n,
                n == buf@.len(),
                n + addr <= ADDRESS_SPACE,
                trace.len() == i + 1,
                trace[0] == *old(self),
                trace[i as int] == *self,
                forall|j: int|
                    0 <= j < i ==> #[trigger] trace[j].read_to(span_addr(addr, j), buf@[j], &trace[j + 1]),
            decreases n - i,
        {
            let value: u8 = self.read((addr as usize + i) as u16);
            buf[i] = value;
            proof {
                trace = trace.push(*self);
            }
            i += 1;
        }
        Ok(())
    }

    /// Same as [`write`], but for every byte of `buf`, written from `addr`
    /// on. A span that does not end by `0xFFFF` is rejected, and then nothing
    /// is written.
    ///
    /// [`write`]: Memory::write
    fn write_slice(&mut self, addr: u16, buf: &[u8]) -> (r: Result<(), RangeOverflow>)
        ensures
            r is Ok <==> span_fits(addr, buf@.len()),
            r is Err ==> r == Err::<(), RangeOverflow>(RangeOverflow { addr, len: buf@.len() as usize })
                && *final(self) == *old(self),
            r is Ok ==> exists|trace: Seq<Self>|
                {
                    &&& trace.len() == buf@.len() + 1
                    &&& trace[0] == *old(self)
                    &&& trace[buf@.len() as int] == *final(self)
                    &&& forall|i: int|
                        0 <= i < buf@.len() ==> #[trigger] trace[i].write_to(span_addr(addr, i), buf@[i], &trace[i + 1])
                },
    {
        let n: usize = buf.len();
        if n > ADDRESS_SPACE - addr as usize {
            return Err(RangeOverflow { addr, len: n });
        }
        let ghost mut trace: Seq<Self> = seq![*self];
        let mut i: usize = 0;
        while i < n
            invariant
                i <= n,
                n == buf@.len(),
                n + addr <= ADDRESS_SPACE,
                trace.len() == i + 1,
                trace[0] == *old(self),
                trace[i as int] == *self,
                forall|j: int|
                    0 <= j < i ==> #[trigger] trace[j].write_to(span_addr(addr, j), buf@[j], &trace[j + 1]),
            decreases n - i,
        {
            self.write((addr as usize + i) as u16, buf[i]);
            proof {
                trace = trace.push(*self);
            }
            i += 1;
        }
        Ok(())
    }
}

} // verus!
