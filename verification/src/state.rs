//! The register file, the flat memory image, and their mathematical view.

use vstd::prelude::*;

verus! {

/// Registers and status flags of the processor.
///
/// The program counter is kept as separate high and low bytes, matching the
/// way the hardware carries and borrows between them; [`CpuState::pc`] gives
/// it as one 16-bit value.
#[derive(Clone, Copy, PartialEq, Eq, Structural, Debug)]
pub struct CpuState {
    /// The accumulator, the primary arithmetic register.
    pub a: u8,
    /// Index register X.
    pub x: u8,
    /// Index register Y.
    pub y: u8,
    /// High byte of the program counter.
    pub pch: u8,
    /// Low byte of the program counter.
    pub pcl: u8,
    /// Set from the high bit of the most recent defining result.
    pub negative: bool,
    /// Signed-overflow flag, written by add-with-carry and bit-test.
    pub signed_overflow: bool,
    /// When set, add-with-carry works in binary-coded decimal.
    pub decimal_mode: bool,
    /// Set when the most recent defining result was zero.
    pub zero: bool,
    /// Carry flag: the final arithmetic carry-out.
    pub carry: bool,
}

/// The processor together with the full 64 KiB address space it owns.
///
/// The backing store covers exactly the addresses a 16-bit bus can form, so
/// no access can ever be out of bounds.
pub struct SystemState {
    pub cpu_state: CpuState,
    pub memory: [u8; 0x10000],
}

/// The mathematical view of a [`SystemState`]: the registers as they are
/// and the memory as a sequence of 65536 bytes. Every contract in this
/// crate is stated over this view.
pub ghost struct Machine {
    pub cpu: CpuState,
    pub mem: Seq<u8>,
}

impl View for SystemState {
    type V = Machine;

    open spec fn view(&self) -> Machine {
        Machine { cpu: self.cpu_state, mem: self.memory@ }
    }
}

/// The 16-bit value formed from a high and a low byte.
pub open spec fn word(hi: u8, lo: u8) -> int {
    hi * 0x100 + lo
}

impl CpuState {
    /// The program counter as one 16-bit value.
    pub open spec fn pc(self) -> int {
        word(self.pch, self.pcl)
    }
}

impl Machine {
    /// A view taken of a real `SystemState` always has this shape.
    pub open spec fn wf(self) -> bool {
        self.mem.len() == 0x10000
    }

    /// The instruction byte `offset` places past the program counter; the
    /// fetch address wraps at the top of the address space.
    pub open spec fn code_byte(self, offset: int) -> u8
        recommends
            self.wf(),
            0 <= offset,
    {
        self.mem[(self.cpu.pc() + offset) % 0x10000]
    }
}

impl Default for CpuState {
    /// The power-on register file: every register and flag zero.
    fn default() -> (c: CpuState)
        ensures
            c == (CpuState {
                a: 0,
                x: 0,
                y: 0,
                pch: 0,
                pcl: 0,
                negative: false,
                signed_overflow: false,
                decimal_mode: false,
                zero: false,
                carry: false,
            }),
    {
        CpuState {
            a: 0,
            x: 0,
            y: 0,
            pch: 0,
            pcl: 0,
            negative: false,
            signed_overflow: false,
            decimal_mode: false,
            zero: false,
            carry: false,
        }
    }
}

impl Default for SystemState {
    /// A freshly created system: zeroed registers and zeroed memory. A
    /// caller-supplied loader is expected to populate memory and the
    /// initial registers before stepping begins.
    fn default() -> (s: SystemState)
        ensures
            s@.cpu == (CpuState {
                a: 0,
                x: 0,
                y: 0,
                pch: 0,
                pcl: 0,
                negative: false,
                signed_overflow: false,
                decimal_mode: false,
                zero: false,
                carry: false,
            }),
            forall|i: int| 0 <= i < 0x10000 ==> s@.mem[i] == 0,
    {
        SystemState { cpu_state: CpuState::default(), memory: [0; 0x10000] }
    }
}

impl SystemState {
    /// Reads the byte at `addr`. Pure storage: no access side effects.
    pub fn get_byte_at_addr(&self, addr: u16) -> (b: u8)
        ensures
            b == self@.mem[addr as int],
    {
        self.memory[addr as usize]
    }

    /// Stores `byte` at `addr`, leaving the registers untouched.
    pub fn set_byte_at_addr(&mut self, addr: u16, byte: u8)
        ensures
            final(self)@.mem == old(self)@.mem.update(addr as int, byte),
            final(self)@.cpu == old(self)@.cpu,
    {
        self.memory[addr as usize] = byte;
    }
}

/// Joins a high and a low byte into a 16-bit value.
pub(crate) fn cat_bytes(b1: u8, b2: u8) -> (r: u16)
    ensures
        r == word(b1, b2),
{
    (b1 as u16) * 0x100 + (b2 as u16)
}

} // verus!
