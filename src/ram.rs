use vstd::prelude::*;

verus! {

/// Number of bytes in the 6502 address space.
pub const MAX_MEMORY: usize = 0x10000;

/// A byte-addressable 64 KiB bus as the processor sees it.
///
/// `memory` is what a read returns at each address. The proofs of this crate assume that
/// model: a read returns the byte `memory` holds and leaves `memory` as it is, and a write
/// stores its byte there. An implementation may keep other state that reads and writes
/// change, but a device whose repeated reads of one address return different bytes, or
/// read-only memory that ignores writes, does not meet these contracts.
pub trait MemIO: Sized {
    /// The byte a read at each address would return.
    spec fn memory(&self) -> Seq<u8>;

    /// Reads the byte at `address`.
    fn read_byte(&mut self, address: usize) -> (byte: u8)
        requires
            address < MAX_MEMORY,
            old(self).memory().len() == MAX_MEMORY,
        ensures
            byte == old(self).memory()[address as int],
            final(self).memory() == old(self).memory(),
    ;

    /// Reads the byte at `address` with no effect on the bus at all (for tracing).
    fn read_byte_without_effect(&mut self, address: usize) -> (byte: u8)
        requires
            address < MAX_MEMORY,
            old(self).memory().len() == MAX_MEMORY,
        ensures
            byte == old(self).memory()[address as int],
            *final(self) == *old(self),
    ;

    /// Writes `byte` at `address`.
    fn write_byte(&mut self, address: usize, byte: u8)
        requires
            address < MAX_MEMORY,
            old(self).memory().len() == MAX_MEMORY,
        ensures
            final(self).memory() == old(self).memory().update(address as int, byte),
    ;

    /// Lets the bus re-initialise its devices; the bytes it holds stay as they are.
    fn reset(&mut self)
        requires
            old(self).memory().len() == MAX_MEMORY,
        ensures
            final(self).memory() == old(self).memory(),
    ;
}

/// Plain read-write memory covering the whole address space.
#[derive(Debug)]
pub struct RAM {
    inner: Vec<u8>,
}

impl RAM {
    /// The bytes held, one per address.
    pub closed spec fn bytes(&self) -> Seq<u8> {
        self.inner@
    }

    /// Memory holding `buf`, which gives one byte for each address.
    pub fn new(buf: Vec<u8>) -> (ram: RAM)
        requires
            buf@.len() == MAX_MEMORY,
        ensures
            ram.memory() == buf@,
    {
        RAM { inner: buf }
    }

    /// Copies `data` into memory starting at `start_address`.
    pub fn write_rom(&mut self, start_address: usize, data: &[u8])
        requires
            old(self).memory().len() == MAX_MEMORY,
            start_address + data@.len() <= MAX_MEMORY,
        ensures
            final(self).memory().len() == MAX_MEMORY,
            forall|a: int|
                0 <= a < MAX_MEMORY ==> #[trigger] final(self).memory()[a] == if start_address <= a
                    < start_address + data@.len() {
                    data@[a - start_address]
                } else {
                    old(self).memory()[a]
                },
    {
        let mut i: usize = 0;
        while i < data.len()
            invariant
                start_address + data@.len() <= MAX_MEMORY,
                self.inner@.len() == MAX_MEMORY,
                i <= data@.len(),
                forall|a: int|
                    0 <= a < MAX_MEMORY ==> #[trigger] self.inner@[a] == if start_address <= a
                        < start_address + i {
                        data@[a - start_address]
                    } else {
                        old(self).inner@[a]
                    },
            decreases data@.len() - i,
        {
            self.inner.set(start_address + i, data[i]);
            i = i + 1;
        }
    }
}

impl Default for RAM {
    fn default() -> (ram: RAM)
        ensures
            ram.memory() == Seq::new(MAX_MEMORY as nat, |a: int| 0u8),
    {
        let inner = vec![0u8; MAX_MEMORY];
        proof {
            assert(inner@ =~= Seq::new(MAX_MEMORY as nat, |a: int| 0u8));
        }
        RAM { inner }
    }
}

impl MemIO for RAM {
    open spec fn memory(&self) -> Seq<u8> {
        self.bytes()
    }

    fn read_byte(&mut self, address: usize) -> (byte: u8) {
        self.inner[address]
    }

    fn read_byte_without_effect(&mut self, address: usize) -> (byte: u8) {
        self.inner[address]
    }

    fn write_byte(&mut self, address: usize, byte: u8) {
        self.inner.set(address, byte);
    }

    fn reset(&mut self) {
    }
}

} // verus!
