//! The instruction executors: one per mnemonic, each proved to produce
//! exactly the register, flag, memory, length, and cycle effects of the
//! hardware.
//!
//! Executors leave the program counter where the opcode sits (branches
//! excepted, which apply their displacement); the step driver advances it
//! by the instruction length afterwards.

use vstd::prelude::*;

verus! {

use vstd::pervasive::unreached;

use crate::addressing::{AddressingMode, pc_plus};
use crate::bcd::{bcd_add, spec_bcd_add};
use crate::state::{CpuState, Machine, SystemState};

/// The modes that yield a value operand for arithmetic and logic
/// instructions.
pub open spec fn value_mode(mode: AddressingMode) -> bool {
    match mode {
        AddressingMode::Acc => false,
        AddressingMode::Rel => false,
        _ => true,
    }
}

/// The modes the shift instruction accepts: it must write back to the
/// location it read from.
pub open spec fn shift_mode(mode: AddressingMode) -> bool {
    match mode {
        AddressingMode::Acc => true,
        AddressingMode::A => true,
        AddressingMode::Zp => true,
        AddressingMode::Aix => true,
        AddressingMode::Zpix => true,
        _ => false,
    }
}

/// The modes the bit-test instruction accepts.
pub open spec fn bit_mode(mode: AddressingMode) -> bool {
    match mode {
        AddressingMode::A => true,
        AddressingMode::Zp => true,
        _ => false,
    }
}

/// How many bytes an instruction with this mode occupies, opcode
/// included.
pub open spec fn mode_length(mode: AddressingMode) -> u8 {
    match mode {
        AddressingMode::I => 2,
        AddressingMode::A => 3,
        AddressingMode::Zp => 2,
        AddressingMode::Aix => 3,
        AddressingMode::Aiy => 3,
        AddressingMode::Zpix => 2,
        AddressingMode::Zpiix => 2,
        AddressingMode::Zpiiy => 2,
        AddressingMode::Acc => 1,
        AddressingMode::Rel => 2,
    }
}

impl Machine {
    /// The effective address a memory-referencing mode resolves to.
    /// Meaningful only for such modes; immediate, accumulator, and
    /// relative operands name no address.
    pub open spec fn operand_addr(self, mode: AddressingMode) -> int
        recommends
            self.wf(),
    {
        match mode {
            AddressingMode::A => self.abs_addr(),
            AddressingMode::Zp => self.zp_addr(),
            AddressingMode::Aix => self.abs_indexed_addr(self.cpu.x),
            AddressingMode::Aiy => self.abs_indexed_addr(self.cpu.y),
            AddressingMode::Zpix => self.zp_indexed_addr(self.cpu.x),
            AddressingMode::Zpiix => self.zp_indexed_indirect_addr(self.cpu.x),
            AddressingMode::Zpiiy => self.zp_indirect_indexed_addr(self.cpu.y),
            _ => 0,
        }
    }

    /// The operand byte a mode yields: the byte after the opcode for
    /// immediate and relative operands, the accumulator for accumulator
    /// mode, and the byte at the effective address otherwise.
    pub open spec fn operand_value(self, mode: AddressingMode) -> u8
        recommends
            self.wf(),
    {
        match mode {
            AddressingMode::I => self.code_byte(1),
            AddressingMode::Acc => self.cpu.a,
            AddressingMode::Rel => self.code_byte(1),
            _ => self.mem[self.operand_addr(mode)],
        }
    }

    /// Base cycle cost of an arithmetic, logic, or bit-test access by
    /// mode, with the extra cycle of a page-crossing indexed access
    /// already added.
    pub open spec fn value_op_cycles(self, mode: AddressingMode) -> u8
        recommends
            self.wf(),
    {
        match mode {
            AddressingMode::I => 2,
            AddressingMode::A => 4,
            AddressingMode::Zp => 3,
            AddressingMode::Aix => if self.abs_indexed_cross(self.cpu.x) {
                5
            } else {
                4
            },
            AddressingMode::Aiy => if self.abs_indexed_cross(self.cpu.y) {
                5
            } else {
                4
            },
            AddressingMode::Zpix => 4,
            AddressingMode::Zpiix => 6,
            AddressingMode::Zpiiy => if self.zp_indirect_indexed_cross(self.cpu.y) {
                6
            } else {
                5
            },
            _ => 0,
        }
    }
}

/// Cycle cost of the shift instruction by mode. Read-modify-write
/// accesses pay a flat cost; no page-cross bonus applies.
pub open spec fn asl_cycles(mode: AddressingMode) -> u8 {
    match mode {
        AddressingMode::Acc => 2,
        AddressingMode::A => 6,
        AddressingMode::Zp => 5,
        AddressingMode::Aix => 7,
        AddressingMode::Zpix => 6,
        _ => 0,
    }
}

/// Binary add-with-carry: the operand and then the carry-in are each
/// added with 8-bit wrap, and the carry-out reports a carry from either
/// stage.
pub open spec fn adc_binary(a: u8, op: u8, carry_in: bool) -> (u8, bool) {
    let s1 = a + op;
    let r1 = s1 % 0x100;
    let s2 = r1 + if carry_in {
        1int
    } else {
        0int
    };
    ((s2 % 0x100) as u8, s1 >= 0x100 || s2 >= 0x100)
}

/// Decimal add-with-carry: two BCD addition passes, the operand first
/// and the carry-in second, with the carry-out from either pass.
pub open spec fn adc_decimal(a: u8, op: u8, carry_in: bool) -> (u8, bool) {
    let first = spec_bcd_add(a, op);
    let second = spec_bcd_add(first.0, if carry_in {
        1u8
    } else {
        0u8
    });
    (second.0, first.1 || second.1)
}

/// The registers after add-with-carry: the sum (binary or decimal by the
/// decimal-mode flag) lands in the accumulator; carry takes the final
/// carry-out; negative and zero follow the result byte; and the
/// overflow flag reports a result that became negative while the
/// accumulator was not negative before.
pub open spec fn adc_cpu(c: CpuState, op: u8) -> CpuState {
    let r = if c.decimal_mode {
        adc_decimal(c.a, op, c.carry)
    } else {
        adc_binary(c.a, op, c.carry)
    };
    CpuState {
        a: r.0,
        carry: r.1,
        negative: r.0 >= 0x80,
        zero: r.0 == 0,
        signed_overflow: c.a < 0x80 && r.0 >= 0x80,
        ..c
    }
}

/// The registers after logical AND: the accumulator is masked with the
/// operand and only negative and zero follow the result.
pub open spec fn and_cpu(c: CpuState, op: u8) -> CpuState {
    let r = c.a & op;
    CpuState { a: r, negative: r >= 0x80, zero: r == 0, ..c }
}

/// The shifted byte: the operand doubled, with the top bit discarded
/// into the carry.
pub open spec fn asl_result(op: u8) -> u8 {
    ((op * 2) % 0x100) as u8
}

/// The whole machine after shift-left: the shifted byte goes back to the
/// location it was read from (accumulator or memory), carry captures the
/// bit shifted out of the top, and negative and zero follow the result.
pub open spec fn asl_effect(m: Machine, mode: AddressingMode) -> Machine
    recommends
        m.wf(),
        shift_mode(mode),
{
    let op = m.operand_value(mode);
    let r = asl_result(op);
    let flagged = CpuState { carry: op >= 0x80, negative: r >= 0x80, zero: r == 0, ..m.cpu };
    if mode is Acc {
        Machine { cpu: CpuState { a: r, ..flagged }, mem: m.mem }
    } else {
        Machine { cpu: flagged, mem: m.mem.update(m.operand_addr(mode), r) }
    }
}

/// The registers after bit-test: negative from bit 7 of the operand,
/// overflow from bit 6, zero from the mask of operand and accumulator.
/// The accumulator itself never changes.
pub open spec fn bit_cpu(c: CpuState, op: u8) -> CpuState {
    CpuState {
        negative: op >= 0x80,
        signed_overflow: (op & 0x40) != 0,
        zero: (op & c.a) == 0,
        ..c
    }
}

/// A branch displacement byte is a two's-complement value in the range
/// -128..=127: bytes at 0x80 and above move the counter backward by
/// 0x100 minus the byte.
pub open spec fn branch_offset(d: u8) -> int {
    if d >= 0x80 {
        d - 0x100
    } else {
        d as int
    }
}

impl Machine {
    /// The registers after a taken branch applies its displacement to
    /// the program counter (before the normal length-based advance).
    pub open spec fn branch_dest(self) -> CpuState
        recommends
            self.wf(),
    {
        pc_plus(self.cpu, branch_offset(self.code_byte(1)))
    }

    /// True when applying the displacement carries or borrows out of
    /// the counter's low byte, changing its high byte: the page cross
    /// that costs a taken branch one more cycle.
    pub open spec fn branch_crosses(self) -> bool
        recommends
            self.wf(),
    {
        let d = self.code_byte(1);
        if d >= 0x80 {
            self.cpu.pcl < 0x100 - d
        } else {
            self.cpu.pcl + d >= 0x100
        }
    }
}

/// The whole machine after a conditional branch tests its flag: a taken
/// branch moves the counter by the displacement, a not-taken branch
/// changes nothing (the driver's two-byte advance still follows).
pub open spec fn branch_effect(m: Machine, taken: bool) -> Machine
    recommends
        m.wf(),
{
    if taken {
        Machine { cpu: m.branch_dest(), mem: m.mem }
    } else {
        m
    }
}

/// Branch timing: two cycles untaken, one more when taken, and one more
/// again when the taken branch crosses a page.
pub open spec fn branch_cycles(m: Machine, taken: bool) -> u8
    recommends
        m.wf(),
{
    if taken {
        if m.branch_crosses() {
            4
        } else {
            3
        }
    } else {
        2
    }
}

/// Whether the byte's top bit — the sign bit of the hardware's
/// two's-complement view — is set.
fn negative_u8(num: u8) -> (r: bool)
    ensures
        r == (num >= 0x80),
{
    proof {
        assert(((num >> 7) != 0) == (num >= 0x80)) by (bit_vector);
    }
    (num >> 7) != 0
}

impl SystemState {
    /// Sets the negative and zero flags from a result byte, as every
    /// instruction that defines them does.
    fn set_n_z(&mut self, result: u8)
        ensures
            final(self)@.cpu == (CpuState {
                negative: result >= 0x80,
                zero: result == 0,
                ..old(self)@.cpu
            }),
            final(self)@.mem == old(self)@.mem,
    {
        self.cpu_state.negative = negative_u8(result);
        self.cpu_state.zero = result == 0;
    }

    /// Fetches the value operand for an arithmetic or logic instruction,
    /// returning it with the instruction length and the cycle cost
    /// (page-cross bonus included).
    fn get_value_operand(&self, mode: AddressingMode) -> (r: (u8, u8, u8))
        requires
            value_mode(mode),
        ensures
            r.0 == self@.operand_value(mode),
            r.1 == mode_length(mode),
            r.2 == self@.value_op_cycles(mode),
    {
        match mode {
            AddressingMode::I => (self.get_immediate_byte(1), 2, 2),
            AddressingMode::A => (self.get_absolute_byte(), 3, 4),
            AddressingMode::Zp => (self.get_zero_page_byte(), 2, 3),
            AddressingMode::Aix => {
                let (byte, page_cross): (u8, bool) = self.get_absolute_byte_indexed(
                    self.cpu_state.x,
                );
                (byte, 3, if page_cross { 5 } else { 4 })
            },
            AddressingMode::Aiy => {
                let (byte, page_cross): (u8, bool) = self.get_absolute_byte_indexed(
                    self.cpu_state.y,
                );
                (byte, 3, if page_cross { 5 } else { 4 })
            },
            AddressingMode::Zpix => (self.get_zero_page_byte_indexed(self.cpu_state.x), 2, 4),
            AddressingMode::Zpiix => (
                self.get_zero_page_byte_indexed_indirect(self.cpu_state.x),
                2,
                6,
            ),
            AddressingMode::Zpiiy => {
                let (byte, page_cross): (u8, bool) = self.get_zero_page_byte_indirect_indexed(
                    self.cpu_state.y,
                );
                (byte, 2, if page_cross { 6 } else { 5 })
            },
            _ => unreached(),
        }
    }

    /// Add-with-carry: adds the operand and then the old carry-in to the
    /// accumulator, in decimal per-nibble arithmetic when the decimal
    /// flag is set and with 8-bit binary wrap otherwise.
    pub fn adc(&mut self, mode: AddressingMode) -> (r: (u8, u8))
        requires
            value_mode(mode),
        ensures
            final(self)@.cpu == adc_cpu(old(self)@.cpu, old(self)@.operand_value(mode)),
            final(self)@.mem == old(self)@.mem,
            r.0 == mode_length(mode),
            r.1 == old(self)@.value_op_cycles(mode),
    {
        let (operand, length, cycles): (u8, u8, u8) = self.get_value_operand(mode);

        let negative_before = negative_u8(self.cpu_state.a);
        let carry_in: u8 = if self.cpu_state.carry {
            1
        } else {
            0
        };

        let (result, carry_out): (u8, bool) = if self.cpu_state.decimal_mode {
            let (r1, carry1): (u8, bool) = bcd_add(self.cpu_state.a, operand);
            let (r2, carry2): (u8, bool) = bcd_add(r1, carry_in);
            (r2, carry1 || carry2)
        } else {
            let s1: u16 = self.cpu_state.a as u16 + operand as u16;
            let r1: u8 = (s1 % 0x100) as u8;
            let s2: u16 = r1 as u16 + carry_in as u16;
            let r2: u8 = (s2 % 0x100) as u8;
            (r2, s1 >= 0x100 || s2 >= 0x100)
        };

        self.cpu_state.a = result;
        self.cpu_state.carry = carry_out;
        self.set_n_z(result);
        self.cpu_state.signed_overflow = !negative_before && negative_u8(result);

        (length, cycles)
    }

    /// Logical AND: masks the accumulator with the operand and updates
    /// negative and zero only.
    pub fn and(&mut self, mode: AddressingMode) -> (r: (u8, u8))
        requires
            value_mode(mode),
        ensures
            final(self)@.cpu == and_cpu(old(self)@.cpu, old(self)@.operand_value(mode)),
            final(self)@.mem == old(self)@.mem,
            r.0 == mode_length(mode),
            r.1 == old(self)@.value_op_cycles(mode),
    {
        let (operand, length, cycles): (u8, u8, u8) = self.get_value_operand(mode);

        let result = self.cpu_state.a & operand;
        self.cpu_state.a = result;
        self.set_n_z(result);

        (length, cycles)
    }

    /// Shift-left: shifts the accumulator or a memory operand left by
    /// one bit, writes the result back where it was read, captures the
    /// discarded top bit in the carry, and updates negative and zero.
    pub fn asl(&mut self, mode: AddressingMode) -> (r: (u8, u8))
        requires
            shift_mode(mode),
        ensures
            final(self)@ == asl_effect(old(self)@, mode),
            r.0 == mode_length(mode),
            r.1 == asl_cycles(mode),
    {
        let (operand, length, cycles): (u8, u8, u8) = match mode {
            AddressingMode::Acc => (self.cpu_state.a, 1, 2),
            AddressingMode::A => (self.get_absolute_byte(), 3, 6),
            AddressingMode::Zp => (self.get_zero_page_byte(), 2, 5),
            AddressingMode::Aix => {
                let (byte, _cross): (u8, bool) = self.get_absolute_byte_indexed(self.cpu_state.x);
                (byte, 3, 7)
            },
            AddressingMode::Zpix => (self.get_zero_page_byte_indexed(self.cpu_state.x), 2, 6),
            _ => unreached(),
        };

        let result = operand << 1u8;
        proof {
            assert((operand << 1u8) == ((operand * 2) % 0x100) as u8) by (bit_vector);
        }

        match mode {
            AddressingMode::Acc => self.cpu_state.a = result,
            AddressingMode::A => self.set_absolute_byte(result),
            AddressingMode::Zp => self.set_zero_page_byte(result),
            AddressingMode::Aix => self.set_absolute_byte_indexed(self.cpu_state.x, result),
            AddressingMode::Zpix => self.set_zero_page_byte_indexed(self.cpu_state.x, result),
            _ => unreached(),
        }

        self.cpu_state.carry = negative_u8(operand);
        self.set_n_z(result);

        (length, cycles)
    }

    /// Bit-test: negative from bit 7 of the operand, overflow from bit
    /// 6, zero from the mask of operand and accumulator; the accumulator
    /// is never modified.
    pub fn bit(&mut self, mode: AddressingMode) -> (r: (u8, u8))
        requires
            bit_mode(mode),
        ensures
            final(self)@.cpu == bit_cpu(old(self)@.cpu, old(self)@.operand_value(mode)),
            final(self)@.mem == old(self)@.mem,
            r.0 == mode_length(mode),
            r.1 == old(self)@.value_op_cycles(mode),
    {
        let (operand, length, cycles): (u8, u8, u8) = match mode {
            AddressingMode::A => (self.get_absolute_byte(), 3, 4),
            AddressingMode::Zp => (self.get_zero_page_byte(), 2, 3),
            _ => unreached(),
        };

        self.cpu_state.negative = negative_u8(operand);
        self.cpu_state.signed_overflow = (operand & 0x40) != 0x00;
        self.cpu_state.zero = (operand & self.cpu_state.a) == 0x00;

        (length, cycles)
    }

    /// Shared branch logic: when the predicate holds, the
    /// two's-complement displacement byte moves the counter (carrying or
    /// borrowing across the page boundary) and the taken and page-cross
    /// cycles are charged; otherwise nothing changes. Either way the
    /// instruction is two bytes long and the driver's advance still
    /// follows.
    fn branch(&mut self, predicate: bool) -> (r: (u8, u8))
        ensures
            final(self)@ == branch_effect(old(self)@, predicate),
            r.0 == 2,
            r.1 == branch_cycles(old(self)@, predicate),
    {
        if predicate {
            let displacement = self.get_immediate_byte(1);

            let page_cross = if negative_u8(displacement) {
                let magnitude: u8 = 0xff - displacement + 1;
                self.decrement_pc(magnitude)
            } else {
                self.increment_pc(displacement)
            };
            (2, if page_cross { 4 } else { 3 })
        } else {
            (2, 2)
        }
    }

    /// Branch when the carry flag is clear.
    pub fn bcc(&mut self) -> (r: (u8, u8))
        ensures
            final(self)@ == branch_effect(old(self)@, !old(self)@.cpu.carry),
            r.0 == 2,
            r.1 == branch_cycles(old(self)@, !old(self)@.cpu.carry),
    {
        let predicate = !self.cpu_state.carry;
        self.branch(predicate)
    }

    /// Branch when the carry flag is set.
    pub fn bcs(&mut self) -> (r: (u8, u8))
        ensures
            final(self)@ == branch_effect(old(self)@, old(self)@.cpu.carry),
            r.0 == 2,
            r.1 == branch_cycles(old(self)@, old(self)@.cpu.carry),
    {
        let predicate = self.cpu_state.carry;
        self.branch(predicate)
    }

    /// Branch when the zero flag is set.
    pub fn beq(&mut self) -> (r: (u8, u8))
        ensures
            final(self)@ == branch_effect(old(self)@, old(self)@.cpu.zero),
            r.0 == 2,
            r.1 == branch_cycles(old(self)@, old(self)@.cpu.zero),
    {
        let predicate = self.cpu_state.zero;
        self.branch(predicate)
    }

    /// Branch when the negative flag is set.
    pub fn bmi(&mut self) -> (r: (u8, u8))
        ensures
            final(self)@ == branch_effect(old(self)@, old(self)@.cpu.negative),
            r.0 == 2,
            r.1 == branch_cycles(old(self)@, old(self)@.cpu.negative),
    {
        let predicate = self.cpu_state.negative;
        self.branch(predicate)
    }

    /// Branch when the zero flag is clear.
    pub fn bne(&mut self) -> (r: (u8, u8))
        ensures
            final(self)@ == branch_effect(old(self)@, !old(self)@.cpu.zero),
            r.0 == 2,
            r.1 == branch_cycles(old(self)@, !old(self)@.cpu.zero),
    {
        let predicate = !self.cpu_state.zero;
        self.branch(predicate)
    }

    /// Branch when the negative flag is clear.
    pub fn bpl(&mut self) -> (r: (u8, u8))
        ensures
            final(self)@ == branch_effect(old(self)@, !old(self)@.cpu.negative),
            r.0 == 2,
            r.1 == branch_cycles(old(self)@, !old(self)@.cpu.negative),
    {
        let predicate = !self.cpu_state.negative;
        self.branch(predicate)
    }
}

/// The bit-test instruction never modifies the accumulator, whatever
/// the operand and whatever flags come out.
pub proof fn lemma_bit_preserves_accumulator(c: CpuState, op: u8)
    ensures
        bit_cpu(c, op).a == c.a,
{
}

/// After add-with-carry and logical AND, the negative and zero flags
/// are functions of the final accumulator byte alone — negative its
/// high bit, zero its being zero — independent of every flag value
/// from before the instruction ran.
pub proof fn lemma_nz_follow_result(c: CpuState, op: u8)
    ensures
        adc_cpu(c, op).negative == (adc_cpu(c, op).a >= 0x80),
        adc_cpu(c, op).zero == (adc_cpu(c, op).a == 0),
        and_cpu(c, op).negative == (and_cpu(c, op).a >= 0x80),
        and_cpu(c, op).zero == (and_cpu(c, op).a == 0),
{
}

/// The shift instruction's negative and zero flags follow its shifted
/// result byte the same way, whether the result lands in the
/// accumulator or back in memory.
pub proof fn lemma_asl_nz_follow_result(m: Machine, mode: AddressingMode)
    requires
        m.wf(),
        shift_mode(mode),
    ensures
        asl_effect(m, mode).cpu.negative == (asl_result(m.operand_value(mode)) >= 0x80),
        asl_effect(m, mode).cpu.zero == (asl_result(m.operand_value(mode)) == 0),
{
}

} // verus!
