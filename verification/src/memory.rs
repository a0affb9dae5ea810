//! The memory subsystem: a flat 65536-word store whose view is a sequence
//! of words indexed by address, with two addresses intercepted as the
//! memory-mapped keyboard status and keyboard data registers.

use vstd::prelude::*;

use crate::error::Error;
use crate::streams::InputStream;

verus! {

/// The number of addressable words.
pub const MEMORY_WORDS: usize = 0x10000;

/// The two memory-mapped keyboard registers.
#[derive(Clone, Copy, Debug, PartialEq, Eq, Structural)]
pub enum MemoryMappedReg {
    /// Keyboard status register: bit 15 reports that a character is ready.
    Kbsr,
    /// Keyboard data register: holds the most recent input byte.
    Kbdr,
}

impl MemoryMappedReg {
    /// The address this mapped register occupies.
    pub open spec fn address_spec(self) -> u16 {
        match self {
            MemoryMappedReg::Kbsr => 0xFE00,
            MemoryMappedReg::Kbdr => 0xFE02,
        }
    }

    /// The address this mapped register occupies.
    pub fn address(self) -> (a: u16)
        ensures
            a == self.address_spec(),
    {
        match self {
            MemoryMappedReg::Kbsr => 0xFE00,
            MemoryMappedReg::Kbdr => 0xFE02,
        }
    }
}

/// What one keyboard poll does to the store and the input source.
/// The poll takes one byte of signal from the source; a nonzero byte sets
/// the ready bit in the status register and places the byte, widened to a
/// word, in the data register, while a zero byte clears the status
/// register. A source that has ended makes the poll fail and leaves both
/// untouched.
pub open spec fn keyboard_poll_spec(mem: Seq<u16>, input: Seq<u8>) -> Option<(Seq<u16>, Seq<u8>)> {
    if input.len() == 0 {
        None
    } else if input[0] != 0 {
        Some(
            (
                mem.update(MemoryMappedReg::Kbsr.address_spec() as int, 1u16 << 15).update(
                    MemoryMappedReg::Kbdr.address_spec() as int,
                    input[0] as u16,
                ),
                input.skip(1),
            ),
        )
    } else {
        Some((mem.update(MemoryMappedReg::Kbsr.address_spec() as int, 0u16), input.skip(1)))
    }
}

/// What reading an address returns and does. A read of the keyboard
/// status address first polls the input source, then yields the stored
/// word; every other address is plain storage and yields its word with no
/// side effect.
pub open spec fn mem_read_spec(mem: Seq<u16>, input: Seq<u8>, address: u16) -> Option<
    (u16, Seq<u16>, Seq<u8>),
> {
    if address == MemoryMappedReg::Kbsr.address_spec() {
        match keyboard_poll_spec(mem, input) {
            None => None,
            Some((mem2, input2)) => Some((mem2[address as int], mem2, input2)),
        }
    } else {
        Some((mem[address as int], mem, input))
    }
}

/// The 65536-word store.
#[derive(Debug)]
pub struct Memory {
    cells: Vec<u16>,
}

impl View for Memory {
    type V = Seq<u16>;

    closed spec fn view(&self) -> Seq<u16> {
        self.cells@
    }
}

/// The memory interface: indexed reads and writes over the full address
/// space and the maximum valid address. The `mem_view` spec function
/// gives the abstract word store a contract can speak of; `mem_inv`
/// says the store is well formed. A test double implements the same
/// interface by giving its own view.
pub trait MemoryTrait {
    /// The abstract word store this implementation represents.
    spec fn mem_view(&self) -> Seq<u16>;

    /// The store is well formed.
    spec fn mem_inv(&self) -> bool;

    /// Reads the word at an address. A read of the keyboard status
    /// address polls the input source first and fails if the source has
    /// ended; every other address is a plain read.
    fn read(&mut self, address: u16, input: &mut InputStream) -> (r: Result<u16, Error>)
        requires
            old(self).mem_inv(),
        ensures
            final(self).mem_inv(),
            ({
                match mem_read_spec(old(self).mem_view(), old(input)@, address) {
                    Some((value, mem2, input2)) => r == Ok::<u16, Error>(value)
                        && final(self).mem_view() == mem2 && final(input)@ == input2,
                    None => r == Err::<u16, Error>(Error::IoError) && final(self).mem_view()
                        == old(self).mem_view() && final(input)@ == old(input)@,
                }
            }),
    ;

    /// Writes a word at an address. Every address is plain storage for
    /// writes; no address is intercepted.
    fn write(&mut self, address: u16, value: u16)
        requires
            old(self).mem_inv(),
        ensures
            final(self).mem_inv(),
            final(self).mem_view() == old(self).mem_view().update(address as int, value),
    ;

    /// The largest valid address.
    fn max(&self) -> (r: u16)
        ensures
            r == 0xFFFFu16,
    ;
}

impl Memory {
    /// The store is well formed: one word per address.
    pub open spec fn inv(&self) -> bool {
        self@.len() == MEMORY_WORDS
    }

    /// Reads the word at an address as plain storage, with no
    /// memory-mapped side effect; for inspection from outside a run.
    pub fn word_at(&self, address: u16) -> (r: u16)
        requires
            self.inv(),
        ensures
            r == self@[address as int],
    {
        self.cells[address as usize]
    }

    /// Performs one keyboard poll: takes one byte of signal from the
    /// input source and refreshes the two mapped registers, as
    /// `keyboard_poll_spec` states. Fails, changing nothing, if the
    /// source has ended.
    pub fn handle_keyboard(&mut self, input: &mut InputStream) -> (r: Result<(), Error>)
        requires
            old(self).inv(),
        ensures
            final(self).inv(),
            ({
                match keyboard_poll_spec(old(self)@, old(input)@) {
                    Some((mem2, input2)) => r == Ok::<(), Error>(()) && final(self)@ == mem2
                        && final(input)@ == input2,
                    None => r == Err::<(), Error>(Error::IoError) && final(self)@ == old(self)@
                        && final(input)@ == old(input)@,
                }
            }),
    {
        let byte = match input.read_byte() {
            Some(b) => b,
            None => {
                return Err(Error::IoError);
            }
        };
        if byte != 0 {
            self.write(MemoryMappedReg::Kbsr.address(), 1u16 << 15);
            self.write(MemoryMappedReg::Kbdr.address(), byte as u16);
        } else {
            self.write(MemoryMappedReg::Kbsr.address(), 0);
        }
        Ok(())
    }
}

impl MemoryTrait for Memory {
    open spec fn mem_view(&self) -> Seq<u16> {
        self@
    }

    open spec fn mem_inv(&self) -> bool {
        self.inv()
    }

    /// The largest valid address.
    fn max(&self) -> (r: u16)
        ensures
            r == 0xFFFFu16,
    {
        0xFFFF
    }

    /// Reads the word at an address. A read of the keyboard status
    /// address polls the input source first and fails if the source has
    /// ended; every other address is a plain read.
    fn read(&mut self, address: u16, input: &mut InputStream) -> (r: Result<u16, Error>)
        ensures
            final(self).inv(),
            ({
                match mem_read_spec(old(self)@, old(input)@, address) {
                    Some((value, mem2, input2)) => r == Ok::<u16, Error>(value)
                        && final(self)@ == mem2 && final(input)@ == input2,
                    None => r == Err::<u16, Error>(Error::IoError) && final(self)@ == old(self)@
                        && final(input)@ == old(input)@,
                }
            }),
    {
        if address == MemoryMappedReg::Kbsr.address() {
            match self.handle_keyboard(input) {
                Ok(()) => {}
                Err(e) => {
                    return Err(e);
                }
            }
        }
        Ok(self.cells[address as usize])
    }

    /// Writes a word at an address. Every address is plain storage for
    /// writes; no address is intercepted.
    fn write(&mut self, address: u16, value: u16)
        ensures
            final(self).inv(),
            final(self)@ == old(self)@.update(address as int, value),
    {
        self.cells[address as usize] = value;
    }
}

impl Default for Memory {
    /// A fresh store: every word zero.
    fn default() -> (r: Memory)
        ensures
            r.inv(),
            forall|address: int| 0 <= address < MEMORY_WORDS ==> #[trigger] r@[address] == 0,
    {
        Memory { cells: vec![0u16; MEMORY_WORDS] }
    }
}

} // verus!
