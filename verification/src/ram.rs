//! The 4 KiB byte-addressable memory of the machine.
use vstd::prelude::*;

verus! {

/// Number of addressable bytes.
pub const MEM_SIZE: usize = 4096;

/// A fixed store of [`MEM_SIZE`] bytes, addressed from zero.
pub struct Ram {
    memory: [u8; MEM_SIZE],
}

impl View for Ram {
    type V = Seq<u8>;

    /// The bytes in address order.
    closed spec fn view(&self) -> Seq<u8> {
        self.memory@
    }
}

/// `memory` with `bytes` laid over it from address `start` on.
pub open spec fn overwritten(memory: Seq<u8>, start: int, bytes: Seq<u8>) -> Seq<u8> {
    Seq::new(
        memory.len(),
        |a: int| if start <= a < start + bytes.len() { bytes[a - start] } else { memory[a] },
    )
}

impl Default for Ram {
    /// A memory whose every byte is zero.
    fn default() -> (ram: Self)
        ensures
            ram@ == Seq::new(MEM_SIZE as nat, |a: int| 0u8),
    {
        let ram = Ram { memory: [0u8; MEM_SIZE] };
        assert(ram@ =~= Seq::new(MEM_SIZE as nat, |a: int| 0u8));
        ram
    }
}

impl Ram {
    /// The byte stored at `address`.
    pub fn read_byte(&self, address: u16) -> (value: u8)
        requires
            address < MEM_SIZE,
        ensures
            self@.len() == MEM_SIZE,
            value == self@[address as int],
    {
        self.memory[address as usize]
    }

    /// Stores `value` at `address` and leaves every other byte as it was.
    pub fn write_byte(&mut self, address: u16, value: u8)
        requires
            address < MEM_SIZE,
        ensures
            final(self)@ == old(self)@.update(address as int, value),
            final(self)@.len() == MEM_SIZE,
    {
        self.memory[address as usize] = value;
    }

    /// Copies `bytes` to `start` and the addresses after it, in order.
    pub fn write_bytes(&mut self, start: u16, bytes: &[u8])
        requires
            start + bytes@.len() <= MEM_SIZE,
        ensures
            final(self)@ == overwritten(old(self)@, start as int, bytes@),
            final(self)@.len() == MEM_SIZE,
    {
        let mut k: usize = 0;
        while k < bytes.len()
            invariant
                k <= bytes@.len(),
                start + bytes@.len() <= MEM_SIZE,
                self@.len() == MEM_SIZE,
                forall|a: int|
                    0 <= a < MEM_SIZE ==> self@[a] == if start <= a < start + k {
                        bytes@[a - start]
                    } else {
                        old(self)@[a]
                    },
            decreases bytes@.len() - k,
        {
            self.write_byte((start as usize + k) as u16, bytes[k]);
            k += 1;
        }
        assert(self@ =~= overwritten(old(self)@, start as int, bytes@));
    }
}

} // verus!
