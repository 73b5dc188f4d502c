//! Opcode dispatch and the single-step entry point.
//!
//! [`spec_decode`] is the total mapping from an opcode byte to the
//! instruction/addressing-mode pair this core implements, [`spec_step`]
//! the mathematical model of one whole machine step, and [`emulate_op`]
//! the one operation the host drives: it performs the full
//! fetch/resolve/execute/write-back/advance sequence and returns the
//! cycle cost, or reports an unrecognized opcode with the state left
//! untouched.

use vstd::prelude::*;

verus! {

use vstd::arithmetic::div_mod::{lemma_add_mod_noop, lemma_small_mod};

use crate::addressing::{AddressingMode, lemma_pc_plus_val, pc_plus};
use crate::instructions::{
    asl_cycles,
    asl_effect,
    adc_cpu,
    and_cpu,
    bit_cpu,
    bit_mode,
    branch_cycles,
    branch_effect,
    branch_offset,
    mode_length,
    shift_mode,
    value_mode,
};
use crate::state::{Machine, SystemState};

/// The mnemonics of the implemented instruction subset.
#[derive(Clone, Copy, Debug)]
pub enum Instr {
    /// Add with carry, binary or decimal by the decimal-mode flag.
    Adc,
    /// Logical AND with the accumulator.
    And,
    /// Arithmetic shift left, in place.
    Asl,
    /// Branch when carry clear.
    Bcc,
    /// Branch when carry set.
    Bcs,
    /// Branch when equal (zero flag set).
    Beq,
    /// Bit test against the accumulator.
    Bit,
    /// Branch when minus (negative flag set).
    Bmi,
    /// Branch when not equal (zero flag clear).
    Bne,
    /// Branch when plus (negative flag clear).
    Bpl,
}

/// The signal for an opcode byte outside the implemented subset. The
/// host decides its own policy; this core never executes undefined
/// behavior in its place.
#[derive(Clone, Copy, PartialEq, Eq, Structural, Debug)]
pub struct UnsupportedOpcode {
    /// The opcode byte that was fetched.
    pub opcode: u8,
}

/// The dispatch table: which instruction/addressing-mode pair an opcode
/// byte names, or `None` for every opcode outside the implemented
/// subset.
pub open spec fn spec_decode(opcode: u8) -> Option<(Instr, AddressingMode)> {
    if opcode == 0x06 {
        Some((Instr::Asl, AddressingMode::Zp))
    } else if opcode == 0x0a {
        Some((Instr::Asl, AddressingMode::Acc))
    } else if opcode == 0x0e {
        Some((Instr::Asl, AddressingMode::A))
    } else if opcode == 0x10 {
        Some((Instr::Bpl, AddressingMode::Rel))
    } else if opcode == 0x16 {
        Some((Instr::Asl, AddressingMode::Zpix))
    } else if opcode == 0x1e {
        Some((Instr::Asl, AddressingMode::Aix))
    } else if opcode == 0x21 {
        Some((Instr::And, AddressingMode::Zpiix))
    } else if opcode == 0x24 {
        Some((Instr::Bit, AddressingMode::Zp))
    } else if opcode == 0x25 {
        Some((Instr::And, AddressingMode::Zp))
    } else if opcode == 0x29 {
        Some((Instr::And, AddressingMode::I))
    } else if opcode == 0x2c {
        Some((Instr::Bit, AddressingMode::A))
    } else if opcode == 0x2d {
        Some((Instr::And, AddressingMode::A))
    } else if opcode == 0x30 {
        Some((Instr::Bmi, AddressingMode::Rel))
    } else if opcode == 0x31 {
        Some((Instr::And, AddressingMode::Zpiiy))
    } else if opcode == 0x35 {
        Some((Instr::And, AddressingMode::Zpix))
    } else if opcode == 0x39 {
        Some((Instr::And, AddressingMode::Aiy))
    } else if opcode == 0x3d {
        Some((Instr::And, AddressingMode::Aix))
    } else if opcode == 0x61 {
        Some((Instr::Adc, AddressingMode::Zpiix))
    } else if opcode == 0x65 {
        Some((Instr::Adc, AddressingMode::Zp))
    } else if opcode == 0x69 {
        Some((Instr::Adc, AddressingMode::I))
    } else if opcode == 0x6d {
        Some((Instr::Adc, AddressingMode::A))
    } else if opcode == 0x71 {
        Some((Instr::Adc, AddressingMode::Zpiiy))
    } else if opcode == 0x75 {
        Some((Instr::Adc, AddressingMode::Zpix))
    } else if opcode == 0x79 {
        Some((Instr::Adc, AddressingMode::Aiy))
    } else if opcode == 0x7d {
        Some((Instr::Adc, AddressingMode::Aix))
    } else if opcode == 0x90 {
        Some((Instr::Bcc, AddressingMode::Rel))
    } else if opcode == 0xb0 {
        Some((Instr::Bcs, AddressingMode::Rel))
    } else if opcode == 0xd0 {
        Some((Instr::Bne, AddressingMode::Rel))
    } else if opcode == 0xf0 {
        Some((Instr::Beq, AddressingMode::Rel))
    } else {
        None
    }
}

/// Every pair the dispatch table yields is a legal instruction/mode
/// combination, so an illegal pairing can never reach an executor.
pub proof fn lemma_decode_pairs(opcode: u8)
    ensures
        match spec_decode(opcode) {
            Some(pair) => match pair.0 {
                Instr::Adc => value_mode(pair.1),
                Instr::And => value_mode(pair.1),
                Instr::Asl => shift_mode(pair.1),
                Instr::Bit => bit_mode(pair.1),
                _ => pair.1 is Rel,
            },
            None => true,
        },
{
}

/// Looks an opcode byte up in the dispatch table.
pub fn decode(opcode: u8) -> (r: Option<(Instr, AddressingMode)>)
    ensures
        r == spec_decode(opcode),
{
    match opcode {
        0x06 => Some((Instr::Asl, AddressingMode::Zp)),
        0x0a => Some((Instr::Asl, AddressingMode::Acc)),
        0x0e => Some((Instr::Asl, AddressingMode::A)),
        0x10 => Some((Instr::Bpl, AddressingMode::Rel)),
        0x16 => Some((Instr::Asl, AddressingMode::Zpix)),
        0x1e => Some((Instr::Asl, AddressingMode::Aix)),
        0x21 => Some((Instr::And, AddressingMode::Zpiix)),
        0x24 => Some((Instr::Bit, AddressingMode::Zp)),
        0x25 => Some((Instr::And, AddressingMode::Zp)),
        0x29 => Some((Instr::And, AddressingMode::I)),
        0x2c => Some((Instr::Bit, AddressingMode::A)),
        0x2d => Some((Instr::And, AddressingMode::A)),
        0x30 => Some((Instr::Bmi, AddressingMode::Rel)),
        0x31 => Some((Instr::And, AddressingMode::Zpiiy)),
        0x35 => Some((Instr::And, AddressingMode::Zpix)),
        0x39 => Some((Instr::And, AddressingMode::Aiy)),
        0x3d => Some((Instr::And, AddressingMode::Aix)),
        0x61 => Some((Instr::Adc, AddressingMode::Zpiix)),
        0x65 => Some((Instr::Adc, AddressingMode::Zp)),
        0x69 => Some((Instr::Adc, AddressingMode::I)),
        0x6d => Some((Instr::Adc, AddressingMode::A)),
        0x71 => Some((Instr::Adc, AddressingMode::Zpiiy)),
        0x75 => Some((Instr::Adc, AddressingMode::Zpix)),
        0x79 => Some((Instr::Adc, AddressingMode::Aiy)),
        0x7d => Some((Instr::Adc, AddressingMode::Aix)),
        0x90 => Some((Instr::Bcc, AddressingMode::Rel)),
        0xb0 => Some((Instr::Bcs, AddressingMode::Rel)),
        0xd0 => Some((Instr::Bne, AddressingMode::Rel)),
        0xf0 => Some((Instr::Beq, AddressingMode::Rel)),
        _ => None,
    }
}

/// The machine after one instruction's own effect — registers, flags,
/// and memory write-back — before the driver advances the counter by
/// the instruction length.
pub open spec fn instr_effect(m: Machine, instr: Instr, mode: AddressingMode) -> Machine
    recommends
        m.wf(),
{
    match instr {
        Instr::Adc => Machine { cpu: adc_cpu(m.cpu, m.operand_value(mode)), mem: m.mem },
        Instr::And => Machine { cpu: and_cpu(m.cpu, m.operand_value(mode)), mem: m.mem },
        Instr::Asl => asl_effect(m, mode),
        Instr::Bit => Machine { cpu: bit_cpu(m.cpu, m.operand_value(mode)), mem: m.mem },
        Instr::Bcc => branch_effect(m, !m.cpu.carry),
        Instr::Bcs => branch_effect(m, m.cpu.carry),
        Instr::Beq => branch_effect(m, m.cpu.zero),
        Instr::Bmi => branch_effect(m, m.cpu.negative),
        Instr::Bne => branch_effect(m, !m.cpu.zero),
        Instr::Bpl => branch_effect(m, !m.cpu.negative),
    }
}

/// The total cycle cost of one instruction, page-cross and branch
/// bonuses included.
pub open spec fn instr_cycles(m: Machine, instr: Instr, mode: AddressingMode) -> u8
    recommends
        m.wf(),
{
    match instr {
        Instr::Adc => m.value_op_cycles(mode),
        Instr::And => m.value_op_cycles(mode),
        Instr::Asl => asl_cycles(mode),
        Instr::Bit => m.value_op_cycles(mode),
        Instr::Bcc => branch_cycles(m, !m.cpu.carry),
        Instr::Bcs => branch_cycles(m, m.cpu.carry),
        Instr::Beq => branch_cycles(m, m.cpu.zero),
        Instr::Bmi => branch_cycles(m, m.cpu.negative),
        Instr::Bne => branch_cycles(m, !m.cpu.zero),
        Instr::Bpl => branch_cycles(m, !m.cpu.negative),
    }
}

/// One whole machine step: fetch the opcode at the program counter,
/// apply the instruction's effect, advance the counter by the
/// instruction length, and account the cycles — or `None` for an
/// unrecognized opcode, which leaves the machine untouched.
pub open spec fn spec_step(m: Machine) -> Option<(Machine, u8)>
    recommends
        m.wf(),
{
    match spec_decode(m.code_byte(0)) {
        None => None,
        Some(pair) => {
            let effect = instr_effect(m, pair.0, pair.1);
            Some(
                (
                    Machine {
                        cpu: pc_plus(effect.cpu, mode_length(pair.1) as int),
                        mem: effect.mem,
                    },
                    instr_cycles(m, pair.0, pair.1),
                ),
            )
        },
    }
}

/// Whether the mnemonic is one of the conditional branches.
pub open spec fn is_branch(instr: Instr) -> bool {
    match instr {
        Instr::Bcc => true,
        Instr::Bcs => true,
        Instr::Beq => true,
        Instr::Bmi => true,
        Instr::Bne => true,
        Instr::Bpl => true,
        _ => false,
    }
}

/// Whether a branch's condition flag matches in the given machine.
pub open spec fn branch_taken(m: Machine, instr: Instr) -> bool {
    match instr {
        Instr::Bcc => !m.cpu.carry,
        Instr::Bcs => m.cpu.carry,
        Instr::Beq => m.cpu.zero,
        Instr::Bmi => m.cpu.negative,
        Instr::Bne => !m.cpu.zero,
        Instr::Bpl => !m.cpu.negative,
        _ => false,
    }
}

/// Branch stepping and timing. A branch whose condition fails advances
/// the program counter by exactly two bytes and costs exactly two
/// cycles; a taken branch lands the counter at the displaced address
/// plus the two-byte instruction length, costs three cycles, and costs
/// four when applying the displacement crosses a page. Memory is never
/// touched either way.
pub proof fn lemma_branch_step(m: Machine, instr: Instr, mode: AddressingMode)
    requires
        m.wf(),
        is_branch(instr),
        spec_decode(m.code_byte(0)) == Some((instr, mode)),
    ensures
        match spec_step(m) {
            Some(stepped) => {
                &&& stepped.0.mem == m.mem
                &&& !branch_taken(m, instr) ==> stepped.1 == 2 && stepped.0.cpu.pc() == (
                m.cpu.pc() + 2) % 0x10000
                &&& branch_taken(m, instr) ==> stepped.1 == (
                if m.branch_crosses() {
                    4int
                } else {
                    3int
                }) && stepped.0.cpu.pc() == (m.cpu.pc() + branch_offset(m.code_byte(1)) + 2)
                    % 0x10000
            },
            None => false,
        },
{
    let taken = branch_taken(m, instr);
    let effect = instr_effect(m, instr, mode);
    lemma_pc_plus_val(effect.cpu, 2);
    if taken {
        let off = branch_offset(m.code_byte(1));
        lemma_pc_plus_val(m.cpu, off);
        lemma_small_mod(2nat, 0x10000nat);
        lemma_add_mod_noop(m.cpu.pc() + off, 2, 0x10000);
    }
}

/// Executes the instruction at the current program counter, mutating the
/// state in place and returning the cycle cost; an opcode outside the
/// implemented subset is reported instead, with the state unchanged.
pub fn emulate_op(sys: &mut SystemState) -> (r: Result<u8, UnsupportedOpcode>)
    ensures
        ({
            let pre = old(sys)@;
            match spec_step(pre) {
                Some(step) => final(sys)@ == step.0 && r == Ok::<u8, UnsupportedOpcode>(step.1),
                None => final(sys)@ == pre && r == Err::<u8, UnsupportedOpcode>(
                    UnsupportedOpcode { opcode: pre.code_byte(0) },
                ),
            }
        }),
{
    let opcode = sys.get_immediate_byte(0);

    match decode(opcode) {
        None => Err(UnsupportedOpcode { opcode }),
        Some((instr, mode)) => {
            proof {
                lemma_decode_pairs(opcode);
            }
            let (length, cycles): (u8, u8) = match instr {
                Instr::Adc => sys.adc(mode),
                Instr::And => sys.and(mode),
                Instr::Asl => sys.asl(mode),
                Instr::Bit => sys.bit(mode),
                Instr::Bcc => sys.bcc(),
                Instr::Bcs => sys.bcs(),
                Instr::Beq => sys.beq(),
                Instr::Bmi => sys.bmi(),
                Instr::Bne => sys.bne(),
                Instr::Bpl => sys.bpl(),
            };
            sys.increment_pc(length);
            Ok(cycles)
        },
    }
}

} // verus!
