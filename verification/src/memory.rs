//! The memory bus: a flat 64 KiB byte array with one aliasing rule — the
//! "echo" window `0xE000..=0xFDFF` mirrors working RAM at `0xC000..=0xDDFF`,
//! each address in the window redirected down by `0x2000`. The window stops
//! at `0xFDFF`, so the last 512 bytes of working RAM have no echo and
//! everything from `0xFE00` up is its own storage — the exact hardware
//! boundary. Storage is zero-initialized at construction.

use vstd::prelude::*;

verus! {

/// Where a bus address lands in backing storage: echo-window addresses are
/// redirected down by `0x2000`, every other address is itself.
pub open spec fn spec_translate(address: u16) -> u16 {
    if 0xE000 <= address && address <= 0xFDFF {
        (address - 0x2000) as u16
    } else {
        address
    }
}

/// Translates a bus address to the backing-storage index it touches.
pub fn translate(address: u16) -> (r: u16)
    ensures
        r == spec_translate(address),
{
    if address >= 0xE000 && address <= 0xFDFF {
        address - 0x2000
    } else {
        address
    }
}

/// The byte a read of `address` observes on bus contents `mem`.
pub open spec fn mem_read(mem: Seq<u8>, address: u16) -> u8 {
    mem[spec_translate(address) as int]
}

/// The bus contents after `value` is written at `address`.
pub open spec fn mem_write(mem: Seq<u8>, address: u16, value: u8) -> Seq<u8> {
    mem.update(spec_translate(address) as int, value)
}

/// The little-endian 16-bit value read at `address`: low byte at `address`,
/// high byte at the (wrapping) next address.
pub open spec fn mem_read16(mem: Seq<u8>, address: u16) -> u16 {
    (mem_read(mem, address.wrapping_add(1)) * 256 + mem_read(mem, address)) as u16
}

pub struct Memory {
    bytes: Vec<u8>,
}

impl View for Memory {
    type V = Seq<u8>;

    closed spec fn view(&self) -> Seq<u8> {
        self.bytes@
    }
}

impl Memory {
    /// The bus always backs the full 16-bit address space.
    pub open spec fn wf(&self) -> bool {
        self@.len() == 65536
    }

    /// A fresh bus with every byte zero: relying on unspecified initial
    /// contents would make reads nondeterministic.
    pub fn new() -> (m: Memory)
        ensures
            m.wf(),
            forall|i: int| 0 <= i < 65536 ==> m@[i] == 0u8,
    {
        let mut bytes: Vec<u8> = Vec::new();
        while bytes.len() < 65536
            invariant
                bytes@.len() <= 65536,
                forall|i: int| 0 <= i < bytes@.len() ==> bytes@[i] == 0u8,
            decreases 65536 - bytes@.len(),
        {
            bytes.push(0u8);
        }
        Memory { bytes }
    }

    pub fn read_byte(&self, address: u16) -> (r: u8)
        requires
            self.wf(),
        ensures
            r == mem_read(self@, address),
    {
        self.bytes[translate(address) as usize]
    }

    pub fn write_byte(&mut self, address: u16, value: u8)
        requires
            old(self).wf(),
        ensures
            final(self).wf(),
            final(self)@ == mem_write(old(self)@, address, value),
    {
        let i = translate(address) as usize;
        self.bytes[i] = value;
    }

    /// Little-endian 16-bit read: low byte at `address`, high byte at
    /// `address + 1` (wrapping).
    pub fn read_short(&self, address: u16) -> (r: u16)
        requires
            self.wf(),
        ensures
            r == mem_read16(self@, address),
    {
        let lo = self.read_byte(address);
        let hi = self.read_byte(address.wrapping_add(1));
        hi as u16 * 256 + lo as u16
    }

    /// The byte at `address` reinterpreted as a two's-complement offset.
    pub fn read_signed_byte(&self, address: u16) -> (r: i8)
        requires
            self.wf(),
        ensures
            r as int == signed8(mem_read(self@, address)),
    {
        let b = self.read_byte(address);
        if b < 128 {
            b as i8
        } else {
            (b as i16 - 256) as i8
        }
    }
}

/// The two's-complement value of a byte.
pub open spec fn signed8(b: u8) -> int {
    if b < 128 {
        b as int
    } else {
        b as int - 256
    }
}

/// The aliasing law: within the whole echo window a write is observed by a
/// read of the mirrored working-RAM address, and the other way round.
pub proof fn lemma_shadow_aliasing(mem: Seq<u8>, address: u16, value: u8)
    requires
        mem.len() == 65536,
        0xE000 <= address <= 0xFDFF,
    ensures
        mem_read(mem_write(mem, address, value), (address - 0x2000) as u16) == value,
        mem_read(mem_write(mem, (address - 0x2000) as u16, value), address) == value,
{
}

} // verus!
