//! Operand resolution for every supported addressing mode, and the
//! program-counter arithmetic.
//!
//! Address arithmetic is modular at every boundary: 8-bit index additions
//! wrap, zero-page-indexed addresses wrap within the zero page, and
//! carries out of the top of the 16-bit address space wrap silently, as
//! the hardware does. Nothing here can panic.

use vstd::prelude::*;

verus! {

use vstd::arithmetic::div_mod::{
    lemma_div_pos_is_pos,
    lemma_fundamental_div_mod,
    lemma_fundamental_div_mod_converse,
    lemma_mod_bound,
    lemma_mod_multiples_vanish,
    lemma_small_mod,
};
use vstd::arithmetic::mul::lemma_mul_inequality;

use crate::state::{CpuState, Machine, SystemState, cat_bytes, word};

/// The addressing modes of the implemented instruction subset.
#[derive(Clone, Copy, Debug)]
pub enum AddressingMode {
    /// Immediate: the operand is the byte after the opcode.
    I,
    /// Absolute: a 16-bit address follows the opcode, low byte first.
    A,
    /// Zero page: one operand byte, high address byte forced to zero.
    Zp,
    /// Absolute indexed by X.
    Aix,
    /// Absolute indexed by Y.
    Aiy,
    /// Zero page indexed by X, wrapping within the zero page.
    Zpix,
    /// Zero page indexed indirect: pointer at the zero-page-wrapped sum
    /// of the operand byte and X.
    Zpiix,
    /// Zero page indirect indexed: base address from the zero-page
    /// pointer named by the operand byte, then Y added.
    Zpiiy,
    /// Accumulator: the operand is the accumulator, no memory access.
    Acc,
    /// Relative: branches read a signed displacement byte.
    Rel,
}

/// A value `v` below twice the modulus wraps at most once.
pub proof fn lemma_wrap_once(v: int, m: int)
    requires
        0 < m,
        0 <= v < 2 * m,
    ensures
        v % m == if v < m {
            v
        } else {
            v - m
        },
{
    if v < m {
        lemma_small_mod(v as nat, m as nat);
    } else {
        lemma_mod_multiples_vanish(1, v - m, m);
        lemma_small_mod((v - m) as nat, m as nat);
    }
}

/// A 16-bit word splits back into the bytes it was formed from.
pub proof fn lemma_word_bytes(hi: u8, lo: u8)
    ensures
        0 <= word(hi, lo) < 0x10000,
        word(hi, lo) / 0x100 == hi,
        word(hi, lo) % 0x100 == lo,
{
    lemma_fundamental_div_mod_converse(word(hi, lo), 0x100, hi as int, lo as int);
}

/// Adding an 8-bit value to a 16-bit word, modulo the address space:
/// the low byte takes the addition and a carry increments the high byte,
/// which itself wraps at the top of the address space.
pub proof fn lemma_word_add(hi: u8, lo: u8, n: u8)
    ensures
        lo + n < 0x100 ==> (word(hi, lo) + n) % 0x10000 == word(hi, (lo + n) as u8),
        lo + n >= 0x100 ==> (word(hi, lo) + n) % 0x10000 == word(
            if hi == 0xff {
                0u8
            } else {
                (hi + 1) as u8
            },
            (lo + n - 0x100) as u8,
        ),
{
    if lo + n < 0x100 {
        lemma_small_mod((word(hi, lo) + n) as nat, 0x10000nat);
    } else if hi == 0xff {
        lemma_mod_multiples_vanish(1, lo + n - 0x100, 0x10000);
        lemma_small_mod((lo + n - 0x100) as nat, 0x10000nat);
    } else {
        lemma_small_mod((word(hi, lo) + n) as nat, 0x10000nat);
    }
}

/// Subtracting an 8-bit value from a 16-bit word, modulo the address
/// space: the low byte takes the subtraction and a borrow decrements the
/// high byte, which itself wraps below zero.
pub proof fn lemma_word_sub(hi: u8, lo: u8, n: u8)
    ensures
        n <= lo ==> (word(hi, lo) - n) % 0x10000 == word(hi, (lo - n) as u8),
        n > lo ==> (word(hi, lo) - n) % 0x10000 == word(
            if hi == 0 {
                0xffu8
            } else {
                (hi - 1) as u8
            },
            (lo - n + 0x100) as u8,
        ),
{
    if n <= lo {
        lemma_small_mod((word(hi, lo) - n) as nat, 0x10000nat);
    } else if hi == 0 {
        lemma_mod_multiples_vanish(-1, lo - n + 0x10000, 0x10000);
        lemma_small_mod((lo - n + 0x10000) as nat, 0x10000nat);
    } else {
        lemma_small_mod((word(hi, lo) - n) as nat, 0x10000nat);
    }
}

/// The registers after moving the program counter by `n`, wrapping at the
/// 16-bit boundary; nothing but the counter changes.
pub open spec fn pc_plus(c: CpuState, n: int) -> CpuState {
    let p = (c.pc() + n) % 0x10000;
    CpuState { pch: (p / 0x100) as u8, pcl: (p % 0x100) as u8, ..c }
}

/// Moving the counter by `n` lands it exactly `n` further, modulo the
/// address space, and touches nothing else.
pub proof fn lemma_pc_plus_val(c: CpuState, n: int)
    ensures
        pc_plus(c, n).pc() == (c.pc() + n) % 0x10000,
        pc_plus(c, n) == (CpuState { pch: pc_plus(c, n).pch, pcl: pc_plus(c, n).pcl, ..c }),
{
    let p = (c.pc() + n) % 0x10000;
    lemma_mod_bound(c.pc() + n, 0x10000);
    lemma_fundamental_div_mod(p, 0x100);
    lemma_mod_bound(p, 0x100);
    assert(p / 0x100 < 0x100) by {
        if p / 0x100 >= 0x100 {
            lemma_mul_inequality(0x100, p / 0x100, 0x100);
        }
    }
    lemma_div_pos_is_pos(p, 0x100);
}

impl Machine {
    /// The 16-bit address held in the two bytes after the opcode, low
    /// byte first.
    pub open spec fn abs_addr(self) -> int
        recommends
            self.wf(),
    {
        word(self.code_byte(2), self.code_byte(1))
    }

    /// Absolute indexed: the absolute address plus an index register,
    /// wrapping at the top of the address space.
    pub open spec fn abs_indexed_addr(self, index: u8) -> int
        recommends
            self.wf(),
    {
        (self.abs_addr() + index) % 0x10000
    }

    /// True when adding the index overflows the low address byte, which
    /// crosses a page and costs the affected modes an extra cycle.
    pub open spec fn abs_indexed_cross(self, index: u8) -> bool
        recommends
            self.wf(),
    {
        self.code_byte(1) + index >= 0x100
    }

    /// Zero page: the operand byte itself, high address byte zero.
    pub open spec fn zp_addr(self) -> int
        recommends
            self.wf(),
    {
        self.code_byte(1) as int
    }

    /// Zero page indexed: the sum wraps within the zero page and never
    /// carries into page one.
    pub open spec fn zp_indexed_addr(self, index: u8) -> int
        recommends
            self.wf(),
    {
        (self.code_byte(1) + index) % 0x100
    }

    /// The 16-bit address read from a zero-page pointer at `ptr`: the low
    /// byte from `ptr`, the high byte from `(ptr + 1) % 0x100`. The
    /// pointer never crosses out of the zero page — reproducing the
    /// hardware quirk exactly.
    pub open spec fn zp_pointer_word(self, ptr: int) -> int
        recommends
            self.wf(),
            0 <= ptr < 0x100,
    {
        word(self.mem[(ptr + 1) % 0x100], self.mem[ptr])
    }

    /// Zero page indexed indirect: the pointer sits at the
    /// zero-page-wrapped sum of the operand byte and the index.
    pub open spec fn zp_indexed_indirect_addr(self, index: u8) -> int
        recommends
            self.wf(),
    {
        self.zp_pointer_word(self.zp_indexed_addr(index))
    }

    /// Zero page indirect indexed: the base address comes from the
    /// zero-page pointer named by the operand byte, then the index is
    /// added with a 16-bit wrap.
    pub open spec fn zp_indirect_indexed_addr(self, index: u8) -> int
        recommends
            self.wf(),
    {
        (self.zp_pointer_word(self.zp_addr()) + index) % 0x10000
    }

    /// True when adding the index overflows the low byte of the base
    /// address read from the zero page.
    pub open spec fn zp_indirect_indexed_cross(self, index: u8) -> bool
        recommends
            self.wf(),
    {
        self.mem[self.zp_addr()] + index >= 0x100
    }
}

/// Zero-page-indexed addressing never carries into page one: whatever
/// the base byte and the index, the effective address stays inside the
/// zero page.
pub proof fn lemma_zp_indexed_stays_in_zero_page(m: Machine, index: u8)
    requires
        m.wf(),
    ensures
        0 <= m.zp_indexed_addr(index) < 0x100,
{
    lemma_mod_bound(m.code_byte(1) + index, 0x100);
}

/// A zero-page pointer sitting at the last zero-page address takes its
/// high byte from address zero, not from address 0x100.
pub proof fn lemma_zp_pointer_high_byte_wraps(m: Machine)
    requires
        m.wf(),
    ensures
        m.zp_pointer_word(0xff) == word(m.mem[0], m.mem[0xff]),
{
    lemma_wrap_once(0x100, 0x100);
}

impl SystemState {
    /// Reads the instruction byte `offset` places past the program
    /// counter, wrapping at the top of the address space.
    pub fn get_immediate_byte(&self, offset: u16) -> (b: u8)
        ensures
            b == self@.code_byte(offset as int),
    {
        let pc: u16 = cat_bytes(self.cpu_state.pch, self.cpu_state.pcl);
        let addr: u16 = pc.wrapping_add(offset);
        proof {
            lemma_wrap_once(pc + offset, 0x10000);
        }
        self.get_byte_at_addr(addr)
    }

    /// Resolves the absolute address in the two bytes after the opcode.
    pub fn get_absolute_addr(&self) -> (addr: u16)
        ensures
            addr == self@.abs_addr(),
    {
        let addr_lo = self.get_immediate_byte(1);
        let addr_hi = self.get_immediate_byte(2);
        cat_bytes(addr_hi, addr_lo)
    }

    /// Reads the operand byte named by an absolute address.
    pub fn get_absolute_byte(&self) -> (b: u8)
        ensures
            b == self@.mem[self@.abs_addr()],
    {
        let addr = self.get_absolute_addr();
        self.get_byte_at_addr(addr)
    }

    /// Writes back through an absolute address.
    pub fn set_absolute_byte(&mut self, byte: u8)
        ensures
            final(self)@.mem == old(self)@.mem.update(old(self)@.abs_addr(), byte),
            final(self)@.cpu == old(self)@.cpu,
    {
        let addr = self.get_absolute_addr();
        self.set_byte_at_addr(addr, byte)
    }

    /// Resolves an absolute indexed address and reports whether the
    /// addition crossed a page.
    pub fn get_absolute_addr_indexed(&self, index: u8) -> (r: (u16, bool))
        ensures
            r.0 == self@.abs_indexed_addr(index),
            r.1 == self@.abs_indexed_cross(index),
    {
        let addr_lo = self.get_immediate_byte(1);
        let addr_hi = self.get_immediate_byte(2);
        let s: u16 = addr_lo as u16 + index as u16;
        let carry = s >= 0x100;
        let new_lo: u8 = (s % 0x100) as u8;
        let new_hi: u8 = if carry {
            addr_hi.wrapping_add(1)
        } else {
            addr_hi
        };
        proof {
            lemma_wrap_once(addr_lo + index, 0x100);
            lemma_word_add(addr_hi, addr_lo, index);
        }
        (cat_bytes(new_hi, new_lo), carry)
    }

    /// Reads the operand byte of an absolute indexed access, together
    /// with the page-cross report.
    pub fn get_absolute_byte_indexed(&self, index: u8) -> (r: (u8, bool))
        ensures
            r.0 == self@.mem[self@.abs_indexed_addr(index)],
            r.1 == self@.abs_indexed_cross(index),
    {
        let (addr, boundary_cross) = self.get_absolute_addr_indexed(index);
        (self.get_byte_at_addr(addr), boundary_cross)
    }

    /// Writes back through an absolute indexed address.
    pub fn set_absolute_byte_indexed(&mut self, index: u8, byte: u8)
        ensures
            final(self)@.mem == old(self)@.mem.update(
                old(self)@.abs_indexed_addr(index),
                byte,
            ),
            final(self)@.cpu == old(self)@.cpu,
    {
        let (addr, _) = self.get_absolute_addr_indexed(index);
        self.set_byte_at_addr(addr, byte)
    }

    /// Reads the operand byte of a zero-page access.
    pub fn get_zero_page_byte(&self) -> (b: u8)
        ensures
            b == self@.mem[self@.zp_addr()],
    {
        let addr = self.get_immediate_byte(1) as u16;
        self.get_byte_at_addr(addr)
    }

    /// Writes back through a zero-page address.
    pub fn set_zero_page_byte(&mut self, byte: u8)
        ensures
            final(self)@.mem == old(self)@.mem.update(old(self)@.zp_addr(), byte),
            final(self)@.cpu == old(self)@.cpu,
    {
        let addr = self.get_immediate_byte(1) as u16;
        self.set_byte_at_addr(addr, byte)
    }

    /// Reads the operand byte of a zero-page indexed access; the address
    /// wraps within the zero page.
    pub fn get_zero_page_byte_indexed(&self, index: u8) -> (b: u8)
        ensures
            b == self@.mem[self@.zp_indexed_addr(index)],
    {
        let operand = self.get_immediate_byte(1);
        let addr = operand.wrapping_add(index) as u16;
        proof {
            lemma_wrap_once(operand + index, 0x100);
        }
        self.get_byte_at_addr(addr)
    }

    /// Writes back through a zero-page indexed address.
    pub fn set_zero_page_byte_indexed(&mut self, index: u8, byte: u8)
        ensures
            final(self)@.mem == old(self)@.mem.update(
                old(self)@.zp_indexed_addr(index),
                byte,
            ),
            final(self)@.cpu == old(self)@.cpu,
    {
        let operand = self.get_immediate_byte(1);
        let addr = operand.wrapping_add(index) as u16;
        proof {
            lemma_wrap_once(operand + index, 0x100);
        }
        self.set_byte_at_addr(addr, byte)
    }

    /// Reads the operand byte of a zero-page indexed indirect access.
    /// Both the pointer location and the pointer's own high byte wrap
    /// within the zero page.
    pub fn get_zero_page_byte_indexed_indirect(&self, index: u8) -> (b: u8)
        ensures
            b == self@.mem[self@.zp_indexed_indirect_addr(index)],
    {
        let operand = self.get_immediate_byte(1);
        let addr1 = operand.wrapping_add(index) as u16;
        proof {
            lemma_wrap_once(operand + index, 0x100);
        }

        let addr2_lo = self.get_byte_at_addr(addr1);
        let addr2_hi = self.get_byte_at_addr((addr1 + 1) % 0x100);
        proof {
            lemma_wrap_once(addr1 + 1, 0x100);
        }
        let addr2 = cat_bytes(addr2_hi, addr2_lo);

        self.get_byte_at_addr(addr2)
    }

    /// Reads the operand byte of a zero-page indirect indexed access and
    /// reports whether adding the index crossed a page. The pointer's
    /// high byte comes from within the zero page even when the pointer
    /// sits at its last address.
    pub fn get_zero_page_byte_indirect_indexed(&self, index: u8) -> (r: (u8, bool))
        ensures
            r.0 == self@.mem[self@.zp_indirect_indexed_addr(index)],
            r.1 == self@.zp_indirect_indexed_cross(index),
    {
        let addr1 = self.get_immediate_byte(1) as u16;

        let addr2_lo = self.get_byte_at_addr(addr1);
        let addr2_hi = self.get_byte_at_addr((addr1 + 1) % 0x100);
        proof {
            lemma_wrap_once(addr1 + 1, 0x100);
        }

        let s: u16 = addr2_lo as u16 + index as u16;
        let carry = s >= 0x100;
        let new_lo: u8 = (s % 0x100) as u8;
        let new_hi: u8 = if carry {
            addr2_hi.wrapping_add(1)
        } else {
            addr2_hi
        };
        proof {
            lemma_wrap_once(addr2_lo + index, 0x100);
            lemma_word_add(addr2_hi, addr2_lo, index);
        }
        let addr2 = cat_bytes(new_hi, new_lo);

        (self.get_byte_at_addr(addr2), carry)
    }

    /// Advances the program counter by `num`, carrying from the low into
    /// the high byte; the counter wraps silently at the top of the
    /// address space. Returns whether the low byte carried.
    pub fn increment_pc(&mut self, num: u8) -> (carry: bool)
        ensures
            final(self)@.cpu == pc_plus(old(self)@.cpu, num as int),
            final(self)@.mem == old(self)@.mem,
            carry == (old(self)@.cpu.pcl + num >= 0x100),
    {
        let s: u16 = self.cpu_state.pcl as u16 + num as u16;
        let carry = s >= 0x100;
        self.cpu_state.pcl = (s % 0x100) as u8;
        if carry {
            self.cpu_state.pch = self.cpu_state.pch.wrapping_add(1);
        }
        proof {
            let c0 = old(self)@.cpu;
            lemma_wrap_once(c0.pcl + num, 0x100);
            lemma_word_add(c0.pch, c0.pcl, num);
            if c0.pcl + num < 0x100 {
                lemma_word_bytes(c0.pch, (c0.pcl + num) as u8);
            } else if c0.pch == 0xff {
                lemma_word_bytes(0, (c0.pcl + num - 0x100) as u8);
            } else {
                lemma_word_bytes((c0.pch + 1) as u8, (c0.pcl + num - 0x100) as u8);
            }
        }
        carry
    }

    /// Moves the program counter back by `num`, borrowing from the high
    /// byte; the counter wraps silently below zero. Returns whether the
    /// low byte borrowed.
    pub fn decrement_pc(&mut self, num: u8) -> (borrow: bool)
        ensures
            final(self)@.cpu == pc_plus(old(self)@.cpu, -(num as int)),
            final(self)@.mem == old(self)@.mem,
            borrow == (old(self)@.cpu.pcl < num),
    {
        let borrow = num > self.cpu_state.pcl;
        self.cpu_state.pcl = self.cpu_state.pcl.wrapping_sub(num);
        if borrow {
            self.cpu_state.pch = self.cpu_state.pch.wrapping_sub(1);
        }
        proof {
            let c0 = old(self)@.cpu;
            lemma_word_sub(c0.pch, c0.pcl, num);
            if num <= c0.pcl {
                lemma_word_bytes(c0.pch, (c0.pcl - num) as u8);
            } else if c0.pch == 0 {
                lemma_word_bytes(0xff, (c0.pcl - num + 0x100) as u8);
            } else {
                lemma_word_bytes((c0.pch - 1) as u8, (c0.pcl - num + 0x100) as u8);
            }
        }
        borrow
    }
}

} // verus!
