//! The Z80 processor: register file, instruction semantics and interrupts.
//!
//! The semantics are stated as spec functions over a register file and a
//! [`BusModel`]; [`Z80::step`] is proved to follow them exactly. Opcodes are
//! decoded by their bit fields `x` (bits 7-6), `y` (bits 5-3) and `z`
//! (bits 2-0), with `p = y / 2` and `q = y % 2`.
use vstd::prelude::*;
use crate::alu::{
    adc16, adc16_exec, add16, add16_exec, alu8, alu8_exec, bit_test, bit_test_exec, carry_flag,
    daa, daa_exec, dec8, dec8_exec, flag_byte, half_flag, inc8, inc8_exec, is_even_parity,
    make_flags, parity_flag, rotate_a, rotate_a_exec, sbc16, sbc16_exec, shift8_flags,
    shift8_flags_exec, sign_flag, signed, sub8, sub8_exec, subtract_flag, szp_flags, weight,
    zero_flag,
};
use crate::memory::{is_storage, lemma_read_after_write, lemma_write_other, BusModel, MemoryBus};

verus! {

/// How an acknowledged interrupt finds its handler.
#[derive(Clone, Copy, Debug, PartialEq, Eq, Structural)]
pub enum InterruptMode {
    /// The byte on the data bus is taken as a restart instruction.
    Mode0,
    /// A fixed handler at `0x0038`.
    Mode1,
    /// The handler's address is read from a table at `I * 256 + data byte`.
    Mode2,
}

/// An opcode with no defined semantics, at the address of its first byte.
#[derive(Clone, Copy, Debug, PartialEq, Eq, Structural)]
pub struct DecodeError {
    pub address: u16,
    pub prefix: u8,
    pub opcode: u8,
}

/// The processor's state.
#[derive(Clone, Copy, Debug, PartialEq, Eq, Structural)]
pub struct Z80 {
    pub a: u8,
    pub f: u8,
    pub b: u8,
    pub c: u8,
    pub d: u8,
    pub e: u8,
    pub h: u8,
    pub l: u8,
    /// The alternate register set, swapped in by `EX AF,AF'` and `EXX`.
    pub a_alt: u8,
    pub f_alt: u8,
    pub b_alt: u8,
    pub c_alt: u8,
    pub d_alt: u8,
    pub e_alt: u8,
    pub h_alt: u8,
    pub l_alt: u8,
    /// Index registers.
    pub ix: u16,
    pub iy: u16,
    /// High byte of the mode-2 vector table.
    pub i: u8,
    pub pc: u16,
    pub sp: u16,
    pub iff1: bool,
    pub iff2: bool,
    pub im: InterruptMode,
    /// Set by `HALT`; cleared when an interrupt is acknowledged.
    pub halted: bool,
    /// The interrupt line: asserted, and not yet acknowledged.
    pub int_pending: bool,
    /// The byte the interrupting device places on the data bus, latched by
    /// `OUT (0),A`.
    pub data_bus: u8,
    /// Cycles executed since the last reset.
    pub cycles: u64,
    /// Cycles by which the last slice ran past its budget.
    pub overshoot: u64,
}

pub open spec fn wrap16(v: int) -> u16 {
    (v % 0x10000) as u16
}

pub open spec fn pair(hi: u8, lo: u8) -> u16 {
    (hi as int * 0x100 + lo as int) as u16
}

pub open spec fn high(v: u16) -> u8 {
    (v as int / 0x100) as u8
}

pub open spec fn low(v: u16) -> u8 {
    (v as int % 0x100) as u8
}

pub open spec fn bc(s: Z80) -> u16 {
    pair(s.b, s.c)
}

pub open spec fn de(s: Z80) -> u16 {
    pair(s.d, s.e)
}

pub open spec fn hl(s: Z80) -> u16 {
    pair(s.h, s.l)
}

pub open spec fn af(s: Z80) -> u16 {
    pair(s.a, s.f)
}

/// The state after reset.
pub open spec fn initial_state() -> Z80 {
    Z80 {
        a: 0,
        f: 0,
        b: 0,
        c: 0,
        d: 0,
        e: 0,
        h: 0,
        l: 0,
        a_alt: 0,
        f_alt: 0,
        b_alt: 0,
        c_alt: 0,
        d_alt: 0,
        e_alt: 0,
        h_alt: 0,
        l_alt: 0,
        ix: 0,
        iy: 0,
        i: 0,
        pc: 0,
        sp: 0,
        iff1: false,
        iff2: false,
        im: InterruptMode::Mode0,
        halted: false,
        int_pending: false,
        data_bus: 0xff,
        cycles: 0,
        overshoot: 0,
    }
}

/// The address `k` bytes past the program counter.
pub open spec fn at(s: Z80, k: int) -> u16 {
    wrap16(s.pc + k)
}

pub open spec fn imm8(s: Z80, m: BusModel) -> u8 {
    m.read(at(s, 1))
}

/// The little-endian word after the opcode byte.
pub open spec fn imm16(s: Z80, m: BusModel) -> u16 {
    pair(m.read(at(s, 2)), m.read(at(s, 1)))
}

pub open spec fn jump(s: Z80, target: u16) -> Z80 {
    Z80 { pc: target, ..s }
}

/// The 8-bit operand selected by `i`: B, C, D, E, H, L, (HL), A.
pub open spec fn reg(s: Z80, m: BusModel, i: u8) -> u8 {
    if i == 0 {
        s.b
    } else if i == 1 {
        s.c
    } else if i == 2 {
        s.d
    } else if i == 3 {
        s.e
    } else if i == 4 {
        s.h
    } else if i == 5 {
        s.l
    } else if i == 6 {
        m.read(hl(s))
    } else {
        s.a
    }
}

pub open spec fn set_reg(s: Z80, m: BusModel, i: u8, v: u8) -> (Z80, BusModel) {
    if i == 0 {
        (Z80 { b: v, ..s }, m)
    } else if i == 1 {
        (Z80 { c: v, ..s }, m)
    } else if i == 2 {
        (Z80 { d: v, ..s }, m)
    } else if i == 3 {
        (Z80 { e: v, ..s }, m)
    } else if i == 4 {
        (Z80 { h: v, ..s }, m)
    } else if i == 5 {
        (Z80 { l: v, ..s }, m)
    } else if i == 6 {
        (s, m.write(hl(s), v))
    } else {
        (Z80 { a: v, ..s }, m)
    }
}

/// The register pair selected by `p`: BC, DE, HL, SP.
pub open spec fn rp(s: Z80, p: u8) -> u16 {
    if p == 0 {
        bc(s)
    } else if p == 1 {
        de(s)
    } else if p == 2 {
        hl(s)
    } else {
        s.sp
    }
}

pub open spec fn set_rp(s: Z80, p: u8, v: u16) -> Z80 {
    if p == 0 {
        Z80 { b: high(v), c: low(v), ..s }
    } else if p == 1 {
        Z80 { d: high(v), e: low(v), ..s }
    } else if p == 2 {
        Z80 { h: high(v), l: low(v), ..s }
    } else {
        Z80 { sp: v, ..s }
    }
}

/// The register pair selected by `p` for push and pop: BC, DE, HL, AF.
pub open spec fn rp2(s: Z80, p: u8) -> u16 {
    if p == 3 {
        af(s)
    } else {
        rp(s, p)
    }
}

pub open spec fn set_rp2(s: Z80, p: u8, v: u16) -> Z80 {
    if p == 3 {
        Z80 { a: high(v), f: low(v), ..s }
    } else {
        set_rp(s, p, v)
    }
}

/// The branch condition selected by `y`: NZ, Z, NC, C, PO, PE, P, M.
pub open spec fn cond(f: u8, y: u8) -> bool {
    if y == 0 {
        !zero_flag(f)
    } else if y == 1 {
        zero_flag(f)
    } else if y == 2 {
        !carry_flag(f)
    } else if y == 3 {
        carry_flag(f)
    } else if y == 4 {
        !parity_flag(f)
    } else if y == 5 {
        parity_flag(f)
    } else if y == 6 {
        !sign_flag(f)
    } else {
        sign_flag(f)
    }
}

/// Pushes `v`: high byte at `SP - 1`, low byte at `SP - 2`.
pub open spec fn push(s: Z80, m: BusModel, v: u16) -> (Z80, BusModel) {
    (
        Z80 { sp: wrap16(s.sp - 2), ..s },
        m.write(wrap16(s.sp - 1), high(v)).write(wrap16(s.sp - 2), low(v)),
    )
}

/// Pops a word: (state with the stack pointer moved up by two, the word).
pub open spec fn pop(s: Z80, m: BusModel) -> (Z80, u16) {
    (Z80 { sp: wrap16(s.sp + 2), ..s }, pair(m.read(wrap16(s.sp + 1)), m.read(s.sp)))
}


pub open spec fn exx(s: Z80) -> Z80 {
    Z80 {
        b: s.b_alt,
        c: s.c_alt,
        d: s.d_alt,
        e: s.e_alt,
        h: s.h_alt,
        l: s.l_alt,
        b_alt: s.b,
        c_alt: s.c,
        d_alt: s.d,
        e_alt: s.e,
        h_alt: s.h,
        l_alt: s.l,
        ..s
    }
}

/// The target of a relative jump whose displacement byte is `d`.
pub open spec fn relative_target(s: Z80, d: u8) -> u16 {
    wrap16(s.pc + 2 + signed(d))
}

/// `x = 0, z = 0`: NOP, EX AF,AF', DJNZ, JR, JR cc. `d` is the byte after the
/// opcode.
pub open spec fn exec_relative(s: Z80, y: u8, d: u8) -> (Z80, u32) {
    if y == 0 {
        (jump(s, at(s, 1)), 4)
    } else if y == 1 {
        (Z80 { a: s.a_alt, f: s.f_alt, a_alt: s.a, f_alt: s.f, pc: at(s, 1), ..s }, 4)
    } else if y == 2 {
        let b = dec8(s.b, s.f).0;
        if b != 0 {
            (Z80 { b: b, pc: relative_target(s, d), ..s }, 13)
        } else {
            (Z80 { b: b, pc: at(s, 2), ..s }, 8)
        }
    } else if y == 3 {
        (jump(s, relative_target(s, d)), 12)
    } else if cond(s.f, (y - 4) as u8) {
        (jump(s, relative_target(s, d)), 12)
    } else {
        (jump(s, at(s, 2)), 7)
    }
}

/// `x = 0, z = 2`: loads and stores through BC, DE or an absolute address.
pub open spec fn exec_indirect(s: Z80, m: BusModel, p: u8, q: u8) -> (Z80, BusModel, u32) {
    let nn = imm16(s, m);
    if q == 0 {
        if p == 0 {
            (jump(s, at(s, 1)), m.write(bc(s), s.a), 7)
        } else if p == 1 {
            (jump(s, at(s, 1)), m.write(de(s), s.a), 7)
        } else if p == 2 {
            (jump(s, at(s, 3)), m.write(nn, s.l).write(wrap16(nn + 1), s.h), 16)
        } else {
            (jump(s, at(s, 3)), m.write(nn, s.a), 13)
        }
    } else {
        if p == 0 {
            (Z80 { a: m.read(bc(s)), pc: at(s, 1), ..s }, m, 7)
        } else if p == 1 {
            (Z80 { a: m.read(de(s)), pc: at(s, 1), ..s }, m, 7)
        } else if p == 2 {
            (Z80 { l: m.read(nn), h: m.read(wrap16(nn + 1)), pc: at(s, 3), ..s }, m, 16)
        } else {
            (Z80 { a: m.read(nn), pc: at(s, 3), ..s }, m, 13)
        }
    }
}

/// `x = 0, z = 7`: accumulator rotations, DAA, CPL, SCF, CCF.
pub open spec fn exec_accumulator(s: Z80, y: u8) -> Z80 {
    let s1 = jump(s, at(s, 1));
    if y < 4 {
        let (a, f) = rotate_a(y, s.a, s.f);
        Z80 { a: a, f: f, ..s1 }
    } else if y == 4 {
        let (a, f) = daa(s.a, s.f);
        Z80 { a: a, f: f, ..s1 }
    } else if y == 5 {
        let a = (0xff - s.a) as u8;
        Z80 {
            a: a,
            f: flag_byte(
                sign_flag(s.f),
                zero_flag(s.f),
                true,
                parity_flag(s.f),
                true,
                carry_flag(s.f),
                a,
            ),
            ..s1
        }
    } else if y == 6 {
        Z80 {
            f: flag_byte(sign_flag(s.f), zero_flag(s.f), false, parity_flag(s.f), false, true, s.a),
            ..s1
        }
    } else {
        Z80 {
            f: flag_byte(
                sign_flag(s.f),
                zero_flag(s.f),
                carry_flag(s.f),
                parity_flag(s.f),
                false,
                !carry_flag(s.f),
                s.a,
            ),
            ..s1
        }
    }
}

/// Opcodes `0x00-0x3F`.
pub open spec fn exec_x0(s: Z80, m: BusModel, op: u8) -> (Z80, BusModel, u32) {
    let y = (op / 8 % 8) as u8;
    let z = (op % 8) as u8;
    let p = (y / 2) as u8;
    let q = (y % 2) as u8;
    if z == 0 {
        let (s1, c) = exec_relative(s, y, imm8(s, m));
        (s1, m, c)
    } else if z == 1 {
        if q == 0 {
            (set_rp(jump(s, at(s, 3)), p, imm16(s, m)), m, 10)
        } else {
            let (r, f) = add16(hl(s), rp(s, p), s.f);
            (set_rp(Z80 { f: f, pc: at(s, 1), ..s }, 2, r), m, 11)
        }
    } else if z == 2 {
        exec_indirect(s, m, p, q)
    } else if z == 3 {
        let v = rp(s, p);
        let nv = if q == 0 {
            wrap16(v + 1)
        } else {
            wrap16(v - 1)
        };
        (set_rp(jump(s, at(s, 1)), p, nv), m, 6)
    } else if z == 4 || z == 5 {
        let (v, f) = if z == 4 {
            inc8(reg(s, m, y), s.f)
        } else {
            dec8(reg(s, m, y), s.f)
        };
        let (s1, m1) = set_reg(Z80 { f: f, pc: at(s, 1), ..s }, m, y, v);
        (
            s1,
            m1,
            if y == 6 {
                11
            } else {
                4
            },
        )
    } else if z == 6 {
        let (s1, m1) = set_reg(jump(s, at(s, 2)), m, y, imm8(s, m));
        (
            s1,
            m1,
            if y == 6 {
                10
            } else {
                7
            },
        )
    } else {
        (exec_accumulator(s, y), m, 4)
    }
}

/// Opcodes `0x40-0x7F`: register-to-register loads, and HALT at `0x76`.
pub open spec fn exec_load8(s: Z80, m: BusModel, op: u8) -> (Z80, BusModel, u32) {
    let y = (op / 8 % 8) as u8;
    let z = (op % 8) as u8;
    if y == 6 && z == 6 {
        (Z80 { halted: true, pc: at(s, 1), ..s }, m, 4)
    } else {
        let (s1, m1) = set_reg(jump(s, at(s, 1)), m, y, reg(s, m, z));
        (
            s1,
            m1,
            if y == 6 || z == 6 {
                7
            } else {
                4
            },
        )
    }
}

/// Opcodes `0x80-0xBF`: accumulator arithmetic and logic on a register.
pub open spec fn exec_alu(s: Z80, m: BusModel, op: u8) -> (Z80, u32) {
    let y = (op / 8 % 8) as u8;
    let z = (op % 8) as u8;
    let (a, f) = alu8(y, s.a, reg(s, m, z), s.f);
    (
        Z80 { a: a, f: f, pc: at(s, 1), ..s },
        if z == 6 {
            7
        } else {
            4
        },
    )
}

/// Opcodes after the `0xCB` prefix: shifts and rotations, BIT, RES, SET.
pub open spec fn exec_cb(s: Z80, m: BusModel) -> (Z80, BusModel, u32) {
    let op = imm8(s, m);
    let x = (op / 64) as u8;
    let y = (op / 8 % 8) as u8;
    let z = (op % 8) as u8;
    let v = reg(s, m, z);
    let s1 = jump(s, at(s, 2));
    let slow = z == 6;
    if x == 0 {
        let (r, f) = shift8_flags(y, v, s.f);
        let (s2, m2) = set_reg(Z80 { f: f, ..s1 }, m, z, r);
        (
            s2,
            m2,
            if slow {
                15
            } else {
                8
            },
        )
    } else if x == 1 {
        (
            Z80 { f: bit_test(y, v, s.f), ..s1 },
            m,
            if slow {
                12
            } else {
                8
            },
        )
    } else {
        let r = if x == 2 {
            v & !(1u8 << y)
        } else {
            v | (1u8 << y)
        };
        let (s2, m2) = set_reg(s1, m, z, r);
        (
            s2,
            m2,
            if slow {
                15
            } else {
                8
            },
        )
    }
}

/// LDI, LDD, LDIR, LDDR (`y` from 4 to 7): copies the byte at HL to DE,
/// steps both, and counts BC down. The repeating forms keep the program
/// counter on the instruction until BC reaches zero.
pub open spec fn exec_block_copy(s: Z80, m: BusModel, y: u8) -> (Z80, BusModel, u32) {
    let v = m.read(hl(s));
    let up = y % 2 == 0;
    let hl1 = if up {
        wrap16(hl(s) + 1)
    } else {
        wrap16(hl(s) - 1)
    };
    let de1 = if up {
        wrap16(de(s) + 1)
    } else {
        wrap16(de(s) - 1)
    };
    let bc1 = wrap16(bc(s) - 1);
    let n = (v as int + s.a as int) % 0x100;
    let f = flag_byte(
        sign_flag(s.f),
        zero_flag(s.f),
        false,
        bc1 != 0,
        false,
        carry_flag(s.f),
        (n / 2 % 2 * 0x20 + n / 8 % 2 * 0x08) as u8,
    );
    let repeat = y >= 6 && bc1 != 0;
    let pc = if repeat {
        s.pc
    } else {
        at(s, 2)
    };
    (
        set_rp(set_rp(set_rp(Z80 { f: f, pc: pc, ..s }, 0, bc1), 1, de1), 2, hl1),
        m.write(de(s), v),
        if repeat {
            21
        } else {
            16
        },
    )
}

/// CPI, CPD, CPIR, CPDR (`y` from 4 to 7): compares A with the byte at HL,
/// steps HL, counts BC down. The repeating forms stay on the instruction
/// until BC reaches zero or a match is found.
pub open spec fn exec_block_compare(s: Z80, m: BusModel, y: u8) -> (Z80, BusModel, u32) {
    let v = m.read(hl(s));
    let up = y % 2 == 0;
    let hl1 = if up {
        wrap16(hl(s) + 1)
    } else {
        wrap16(hl(s) - 1)
    };
    let bc1 = wrap16(bc(s) - 1);
    let (r, sf) = sub8(s.a, v, false);
    let h = half_flag(sf);
    let n = (r as int - weight(h, 1) + 0x100) % 0x100;
    let f = flag_byte(
        r >= 0x80,
        r == 0,
        h,
        bc1 != 0,
        true,
        carry_flag(s.f),
        (n / 2 % 2 * 0x20 + n / 8 % 2 * 0x08) as u8,
    );
    let repeat = y >= 6 && bc1 != 0 && r != 0;
    let pc = if repeat {
        s.pc
    } else {
        at(s, 2)
    };
    (
        set_rp(set_rp(Z80 { f: f, pc: pc, ..s }, 0, bc1), 2, hl1),
        m,
        if repeat {
            21
        } else {
            16
        },
    )
}

/// RRD (`y = 4`) and RLD (`y = 5`): rotate a decimal digit between the low
/// nibble of A and the byte at HL.
pub open spec fn exec_digit_rotate(s: Z80, m: BusModel, y: u8) -> (Z80, BusModel, u32) {
    let v = m.read(hl(s)) as int;
    let a = s.a as int;
    let (na, nv) = if y == 4 {
        (a / 16 * 16 + v % 16, a % 16 * 16 + v / 16)
    } else {
        (a / 16 * 16 + v / 16, v % 16 * 16 + a % 16)
    };
    let ra = na as u8;
    (
        Z80 { a: ra, f: szp_flags(ra, false, carry_flag(s.f)), pc: at(s, 2), ..s },
        m.write(hl(s), nv as u8),
        18,
    )
}

/// Opcodes after the `0xED` prefix. No port answers `IN r,(C)`, which
/// reads 0; `OUT (C),r` to port 0 latches the data-bus byte. Those without
/// semantics here (the refresh register, block input and output) are
/// reported as decode errors.
pub open spec fn exec_ed(s: Z80, m: BusModel) -> Result<(Z80, BusModel, u32), DecodeError> {
    let op = imm8(s, m);
    let x = (op / 64) as u8;
    let y = (op / 8 % 8) as u8;
    let z = (op % 8) as u8;
    let p = (y / 2) as u8;
    let q = (y % 2) as u8;
    let s1 = jump(s, at(s, 2));
    if x == 1 && z == 2 {
        let (r, f) = if q == 0 {
            sbc16(hl(s), rp(s, p), s.f)
        } else {
            adc16(hl(s), rp(s, p), s.f)
        };
        Ok((set_rp(Z80 { f: f, ..s1 }, 2, r), m, 15))
    } else if x == 1 && z == 3 {
        let nn = pair(m.read(at(s, 3)), m.read(at(s, 2)));
        let s2 = jump(s, at(s, 4));
        if q == 0 {
            let v = rp(s, p);
            Ok((s2, m.write(nn, low(v)).write(wrap16(nn + 1), high(v)), 20))
        } else {
            Ok((set_rp(s2, p, pair(m.read(wrap16(nn + 1)), m.read(nn))), m, 20))
        }
    } else if x == 1 && z == 4 {
        let (a, f) = sub8(0, s.a, false);
        Ok((Z80 { a: a, f: f, ..s1 }, m, 8))
    } else if x == 1 && z == 5 {
        let (s2, v) = pop(s, m);
        Ok((Z80 { pc: v, iff1: s.iff2, ..s2 }, m, 14))
    } else if x == 1 && z == 6 {
        let mode = if y % 4 == 2 {
            InterruptMode::Mode1
        } else if y % 4 == 3 {
            InterruptMode::Mode2
        } else {
            InterruptMode::Mode0
        };
        Ok((Z80 { im: mode, ..s1 }, m, 8))
    } else if x == 1 && z == 7 && y == 0 {
        Ok((Z80 { i: s.a, ..s1 }, m, 9))
    } else if x == 1 && z == 7 && y == 2 {
        let f = flag_byte(s.i >= 0x80, s.i == 0, false, s.iff2, false, carry_flag(s.f), s.i);
        Ok((Z80 { a: s.i, f: f, ..s1 }, m, 9))
    } else if x == 2 && z == 0 && y >= 4 {
        Ok(exec_block_copy(s, m, y))
    } else if x == 2 && z == 1 && y >= 4 {
        Ok(exec_block_compare(s, m, y))
    } else if x == 1 && z == 7 && (y == 4 || y == 5) {
        Ok(exec_digit_rotate(s, m, y))
    } else if x == 1 && z == 0 {
        let f = szp_flags(0, false, carry_flag(s.f));
        if y == 6 {
            Ok((Z80 { f: f, ..s1 }, m, 12))
        } else {
            let (s2, m2) = set_reg(Z80 { f: f, ..s1 }, m, y, 0);
            Ok((s2, m2, 12))
        }
    } else if x == 1 && z == 1 {
        let v = if y == 6 {
            0
        } else {
            reg(s, m, y)
        };
        let latch = if s.c == 0 {
            v
        } else {
            s.data_bus
        };
        Ok((Z80 { data_bus: latch, ..s1 }, m, 12))
    } else {
        Err(DecodeError { address: s.pc, prefix: 0xed, opcode: op })
    }
}

/// The index register a `0xDD` (IX) or `0xFD` (IY) prefix selects.
pub open spec fn index_of(s: Z80, prefix: u8) -> u16 {
    if prefix == 0xdd {
        s.ix
    } else {
        s.iy
    }
}

pub open spec fn set_index(s: Z80, prefix: u8, v: u16) -> Z80 {
    if prefix == 0xdd {
        Z80 { ix: v, ..s }
    } else {
        Z80 { iy: v, ..s }
    }
}

/// The operand address `index + d` of an indexed instruction, `d` being the
/// signed byte after the opcode.
pub open spec fn displaced(s: Z80, m: BusModel, prefix: u8) -> u16 {
    wrap16(index_of(s, prefix) + signed(m.read(at(s, 2))))
}

/// Prefix, `0xCB`, displacement, opcode: shifts, BIT, RES, SET on the
/// indexed byte.
pub open spec fn exec_indexed_bits(s: Z80, m: BusModel, prefix: u8) -> Result<(Z80, BusModel, u32), DecodeError> {
    let op = m.read(at(s, 3));
    let x = (op / 64) as u8;
    let y = (op / 8 % 8) as u8;
    let z = (op % 8) as u8;
    let ea = displaced(s, m, prefix);
    let v = m.read(ea);
    let s4 = jump(s, at(s, 4));
    if x == 1 {
        Ok((Z80 { f: bit_test(y, v, s.f), ..s4 }, m, 20))
    } else if z != 6 {
        Err(DecodeError { address: s.pc, prefix: prefix, opcode: op })
    } else if x == 0 {
        let (r, f) = shift8_flags(y, v, s.f);
        Ok((Z80 { f: f, ..s4 }, m.write(ea, r), 23))
    } else {
        let r = if x == 2 {
            v & !(1u8 << y)
        } else {
            v | (1u8 << y)
        };
        Ok((s4, m.write(ea, r), 23))
    }
}

/// Opcodes after a `0xDD` or `0xFD` prefix: the HL forms with HL replaced by
/// the index register, and (HL) by the displaced address.
pub open spec fn exec_indexed(s: Z80, m: BusModel, prefix: u8) -> Result<(Z80, BusModel, u32), DecodeError> {
    let op = imm8(s, m);
    let x = (op / 64) as u8;
    let y = (op / 8 % 8) as u8;
    let z = (op % 8) as u8;
    let p = (y / 2) as u8;
    let q = (y % 2) as u8;
    let ix = index_of(s, prefix);
    let ea = displaced(s, m, prefix);
    let s2 = jump(s, at(s, 2));
    let s3 = jump(s, at(s, 3));
    let s4 = jump(s, at(s, 4));
    let nn = pair(m.read(at(s, 3)), m.read(at(s, 2)));
    if op == 0x21 {
        Ok((set_index(s4, prefix, nn), m, 14))
    } else if op == 0x22 {
        Ok((s4, m.write(nn, low(ix)).write(wrap16(nn + 1), high(ix)), 20))
    } else if op == 0x2a {
        Ok((set_index(s4, prefix, pair(m.read(wrap16(nn + 1)), m.read(nn))), m, 20))
    } else if op == 0x23 {
        Ok((set_index(s2, prefix, wrap16(ix + 1)), m, 10))
    } else if op == 0x2b {
        Ok((set_index(s2, prefix, wrap16(ix - 1)), m, 10))
    } else if x == 0 && z == 1 && q == 1 {
        let v = if p == 2 {
            ix
        } else {
            rp(s, p)
        };
        let (r, f) = add16(ix, v, s.f);
        Ok((set_index(Z80 { f: f, ..s2 }, prefix, r), m, 15))
    } else if op == 0x34 || op == 0x35 {
        let (v, f) = if op == 0x34 {
            inc8(m.read(ea), s.f)
        } else {
            dec8(m.read(ea), s.f)
        };
        Ok((Z80 { f: f, ..s3 }, m.write(ea, v), 23))
    } else if op == 0x36 {
        Ok((s4, m.write(ea, m.read(at(s, 3))), 19))
    } else if x == 1 && z == 6 && y != 6 {
        let (s1, m1) = set_reg(s3, m, y, m.read(ea));
        Ok((s1, m1, 19))
    } else if x == 1 && y == 6 && z != 6 {
        Ok((s3, m.write(ea, reg(s, m, z)), 19))
    } else if x == 2 && z == 6 {
        let (a, f) = alu8(y, s.a, m.read(ea), s.f);
        Ok((Z80 { a: a, f: f, ..s3 }, m, 19))
    } else if op == 0xe1 {
        let (s1, v) = pop(s, m);
        Ok((set_index(jump(s1, at(s, 2)), prefix, v), m, 14))
    } else if op == 0xe5 {
        let (s1, m1) = push(s2, m, ix);
        Ok((s1, m1, 15))
    } else if op == 0xe3 {
        let lo = m.read(s.sp);
        let hi = m.read(wrap16(s.sp + 1));
        Ok(
            (
                set_index(s2, prefix, pair(hi, lo)),
                m.write(s.sp, low(ix)).write(wrap16(s.sp + 1), high(ix)),
                23,
            ),
        )
    } else if op == 0xe9 {
        Ok((jump(s, ix), m, 8))
    } else if op == 0xf9 {
        Ok((Z80 { sp: ix, ..s2 }, m, 10))
    } else if op == 0xcb {
        exec_indexed_bits(s, m, prefix)
    } else {
        Err(DecodeError { address: s.pc, prefix: prefix, opcode: op })
    }
}

/// `x = 3, z = 3`: JP nn, the `0xCB` prefix, OUT (n),A, IN A,(n),
/// EX (SP),HL, EX DE,HL, DI, EI. A write to port 0 latches the data-bus byte
/// used by interrupt modes 0 and 2; no port answers a read, which gives 0.
pub open spec fn exec_misc(s: Z80, m: BusModel, y: u8) -> (Z80, BusModel, u32) {
    if y == 0 {
        (jump(s, imm16(s, m)), m, 10)
    } else if y == 1 {
        exec_cb(s, m)
    } else if y == 2 {
        let latch = if imm8(s, m) == 0 {
            s.a
        } else {
            s.data_bus
        };
        (Z80 { data_bus: latch, pc: at(s, 2), ..s }, m, 11)
    } else if y == 3 {
        (Z80 { a: 0, pc: at(s, 2), ..s }, m, 11)
    } else if y == 4 {
        let lo = m.read(s.sp);
        let hi = m.read(wrap16(s.sp + 1));
        (
            Z80 { h: hi, l: lo, pc: at(s, 1), ..s },
            m.write(s.sp, s.l).write(wrap16(s.sp + 1), s.h),
            19,
        )
    } else if y == 5 {
        (Z80 { d: s.h, e: s.l, h: s.d, l: s.e, pc: at(s, 1), ..s }, m, 4)
    } else if y == 6 {
        (Z80 { iff1: false, iff2: false, pc: at(s, 1), ..s }, m, 4)
    } else {
        (Z80 { iff1: true, iff2: true, pc: at(s, 1), ..s }, m, 4)
    }
}

/// Opcodes `0xC0-0xFF`.
pub open spec fn exec_x3(s: Z80, m: BusModel, op: u8) -> Result<(Z80, BusModel, u32), DecodeError> {
    let y = (op / 8 % 8) as u8;
    let z = (op % 8) as u8;
    let p = (y / 2) as u8;
    let q = (y % 2) as u8;
    if z == 0 {
        if cond(s.f, y) {
            let (s1, v) = pop(s, m);
            Ok((jump(s1, v), m, 11))
        } else {
            Ok((jump(s, at(s, 1)), m, 5))
        }
    } else if z == 1 {
        if q == 0 {
            let (s1, v) = pop(s, m);
            Ok((set_rp2(jump(s1, at(s, 1)), p, v), m, 10))
        } else if p == 0 {
            let (s1, v) = pop(s, m);
            Ok((jump(s1, v), m, 10))
        } else if p == 1 {
            Ok((exx(jump(s, at(s, 1))), m, 4))
        } else if p == 2 {
            Ok((jump(s, hl(s)), m, 4))
        } else {
            Ok((Z80 { sp: hl(s), pc: at(s, 1), ..s }, m, 6))
        }
    } else if z == 2 {
        if cond(s.f, y) {
            Ok((jump(s, imm16(s, m)), m, 10))
        } else {
            Ok((jump(s, at(s, 3)), m, 10))
        }
    } else if z == 3 {
        Ok(exec_misc(s, m, y))
    } else if z == 4 {
        if cond(s.f, y) {
            let (s1, m1) = push(s, m, at(s, 3));
            Ok((jump(s1, imm16(s, m)), m1, 17))
        } else {
            Ok((jump(s, at(s, 3)), m, 10))
        }
    } else if z == 5 {
        if q == 0 {
            let (s1, m1) = push(jump(s, at(s, 1)), m, rp2(s, p));
            Ok((s1, m1, 11))
        } else if p == 0 {
            let (s1, m1) = push(s, m, at(s, 3));
            Ok((jump(s1, imm16(s, m)), m1, 17))
        } else if p == 2 {
            exec_ed(s, m)
        } else {
            exec_indexed(s, m, op)
        }
    } else if z == 6 {
        let (a, f) = alu8(y, s.a, imm8(s, m), s.f);
        Ok((Z80 { a: a, f: f, pc: at(s, 2), ..s }, m, 7))
    } else {
        let (s1, m1) = push(s, m, at(s, 1));
        Ok((jump(s1, (y * 8) as u16), m1, 11))
    }
}

/// The handler address in interrupt mode 0: the data-bus byte taken as a
/// restart instruction.
pub open spec fn mode0_entry(data: u8) -> u16 {
    (data & 0x38) as u16
}

/// The interrupt-acknowledge sequence: interrupts disabled, the line
/// cleared, a halt ended, the program counter pushed, and a jump to the
/// handler of the active mode.
#[verifier::opaque]
pub open spec fn acknowledge(s: Z80, m: BusModel) -> (Z80, BusModel, u32) {
    let (s1, m1) = push(
        Z80 { iff1: false, iff2: false, halted: false, int_pending: false, ..s },
        m,
        s.pc,
    );
    match s.im {
        InterruptMode::Mode0 => (jump(s1, mode0_entry(s.data_bus)), m1, 13),
        InterruptMode::Mode1 => (jump(s1, 0x38), m1, 13),
        InterruptMode::Mode2 => {
            let t = pair(s.i, s.data_bus);
            (jump(s1, pair(m1.read(wrap16(t + 1)), m1.read(t))), m1, 19)
        },
    }
}

/// One instruction at the program counter.
#[verifier::opaque]
pub open spec fn execute(s: Z80, m: BusModel) -> Result<(Z80, BusModel, u32), DecodeError> {
    let op = m.read(s.pc);
    let x = op / 64;
    if x == 0 {
        Ok(exec_x0(s, m, op))
    } else if x == 1 {
        Ok(exec_load8(s, m, op))
    } else if x == 2 {
        let (s1, c) = exec_alu(s, m, op);
        Ok((s1, m, c))
    } else {
        exec_x3(s, m, op)
    }
}

/// What one step does, before the cycle counter moves: acknowledge a
/// pending interrupt if interrupts are enabled, else idle while halted, else
/// execute one instruction.
pub open spec fn step_effect(s: Z80, m: BusModel) -> Result<(Z80, BusModel, u32), DecodeError> {
    if s.int_pending && s.iff1 {
        Ok(acknowledge(s, m))
    } else if s.halted {
        Ok((s, m, 4))
    } else {
        execute(s, m)
    }
}

/// One step, with the cycle counter advanced by its cost.
pub open spec fn step_spec(s: Z80, m: BusModel) -> Result<(Z80, BusModel, u32), DecodeError> {
    match step_effect(s, m) {
        Ok((s1, m1, c)) => Ok((Z80 { cycles: (s1.cycles + c) as u64, ..s1 }, m1, c)),
        Err(e) => Err(e),
    }
}

/// Runs steps until at least `target` cycles have been spent: the final
/// state, and either nothing or the decode error that stopped the run (the
/// state is then the one at the undecodable instruction).
pub open spec fn run_until(s: Z80, m: BusModel, target: nat) -> (Z80, BusModel, Result<(), DecodeError>)
    decreases target,
{
    if target == 0 {
        (s, m, Ok(()))
    } else {
        match step_spec(s, m) {
            Ok((s1, m1, c)) => if c == 0 || c >= target {
                (s1, m1, Ok(()))
            } else {
                run_until(s1, m1, (target - c) as nat)
            },
            Err(e) => (s, m, Err(e)),
        }
    }
}

/// The cycles a slice must run: its budget less what the previous slice
/// overshot.
pub open spec fn slice_target(s: Z80, budget: u64) -> nat {
    if s.overshoot >= budget {
        0
    } else {
        (budget - s.overshoot) as nat
    }
}

/// One slice: steps until the budget is met, then the interrupt line is
/// asserted and the overshoot carried to the next slice. The result is the
/// number of cycles spent.
pub open spec fn run_slice(s: Z80, m: BusModel, budget: u64) -> (Z80, BusModel, Result<u64, DecodeError>) {
    let target = slice_target(s, budget);
    let (s1, m1, r) = run_until(s, m, target);
    match r {
        Ok(_) => {
            let spent = s1.cycles - s.cycles;
            let carry = if s.overshoot >= budget {
                s.overshoot - budget
            } else {
                spent - target
            };
            (Z80 { int_pending: true, overshoot: carry as u64, ..s1 }, m1, Ok(spent as u64))
        },
        Err(e) => (s1, m1, Err(e)),
    }
}

/// What every instruction keeps: the cycle accounting, which only a step
/// as a whole advances, and the interrupt line, which only the acknowledge
/// sequence clears.
pub open spec fn keeps_accounting(s: Z80, s1: Z80, c: u32) -> bool {
    &&& 4 <= c <= 23
    &&& s1.cycles == s.cycles
    &&& s1.overshoot == s.overshoot
    &&& s1.int_pending == s.int_pending
}

proof fn lemma_cost_x0(s: Z80, m: BusModel, op: u8)
    ensures
        keeps_accounting(s, exec_x0(s, m, op).0, exec_x0(s, m, op).2),
{
}

proof fn lemma_cost_cb(s: Z80, m: BusModel)
    ensures
        keeps_accounting(s, exec_cb(s, m).0, exec_cb(s, m).2),
{
}

proof fn lemma_cost_ed(s: Z80, m: BusModel)
    ensures
        match exec_ed(s, m) {
            Ok((s1, _, c)) => keeps_accounting(s, s1, c),
            Err(_) => true,
        },
{
}

proof fn lemma_cost_indexed(s: Z80, m: BusModel, prefix: u8)
    ensures
        match exec_indexed(s, m, prefix) {
            Ok((s1, _, c)) => keeps_accounting(s, s1, c),
            Err(_) => true,
        },
{
}

proof fn lemma_cost_x3(s: Z80, m: BusModel, op: u8)
    ensures
        match exec_x3(s, m, op) {
            Ok((s1, _, c)) => keeps_accounting(s, s1, c),
            Err(_) => true,
        },
{
    lemma_cost_cb(s, m);
    lemma_cost_ed(s, m);
    lemma_cost_indexed(s, m, op);
}

proof fn lemma_execute_keeps(s: Z80, m: BusModel)
    ensures
        match execute(s, m) {
            Ok((s1, _, c)) => keeps_accounting(s, s1, c),
            Err(_) => true,
        },
{
    reveal(execute);
    let op = m.read(s.pc);
    lemma_cost_x0(s, m, op);
    lemma_cost_x3(s, m, op);
}

/// Every step costs between 4 and 23 cycles, and leaves the cycle
/// accounting to the caller.
pub proof fn lemma_step_cost(s: Z80, m: BusModel)
    ensures
        match step_effect(s, m) {
            Ok((s1, _, c)) => 4 <= c <= 23 && s1.cycles == s.cycles && s1.overshoot == s.overshoot,
            Err(_) => true,
        },
{
    reveal(acknowledge);
    lemma_execute_keeps(s, m);
}

/// A slice whose budget one instruction covers runs exactly that step and
/// then asserts the interrupt line: what a single step does is what
/// `run_cycles` does, with the overshoot being what the step cost beyond the
/// budget.
pub proof fn lemma_single_step_slice(s: Z80, m: BusModel, budget: u64)
    requires
        s.overshoot == 0,
        0 < budget,
        s.cycles + 23 <= u64::MAX,
        match step_spec(s, m) {
            Ok((_, _, c)) => budget <= c,
            Err(_) => true,
        },
    ensures
        match step_spec(s, m) {
            Ok((s1, m1, c)) => run_slice(s, m, budget) == (
                Z80 { int_pending: true, overshoot: (c - budget) as u64, ..s1 },
                m1,
                Ok::<u64, DecodeError>(c as u64),
            ),
            Err(e) => run_slice(s, m, budget) == (s, m, Err::<u64, DecodeError>(e)),
        },
{
    lemma_step_cost(s, m);
}

/// Over a slice of 4 cycles, `INC r` on a register holding 255 gives 0 with
/// zero and half-carry set, sign, overflow and subtract clear, carry kept,
/// and the cycle counter 4 higher.
pub proof fn lemma_increment_slice(s: Z80, m: BusModel, y: u8)
    requires
        y < 8,
        y != 6,
        executes(s, m, (y * 8 + 4) as u8),
        reg(s, m, y) == 255,
        s.overshoot == 0,
        s.cycles + 23 <= u64::MAX,
    ensures
        ({
            let (s1, m1, r) = run_slice(s, m, 4);
            &&& r == Ok::<u64, DecodeError>(4)
            &&& reg(s1, m1, y) == 0
            &&& zero_flag(s1.f)
            &&& half_flag(s1.f)
            &&& !sign_flag(s1.f)
            &&& !parity_flag(s1.f)
            &&& !subtract_flag(s1.f)
            &&& carry_flag(s1.f) == carry_flag(s.f)
            &&& s1.pc == at(s, 1)
            &&& s1.cycles == s.cycles + 4
        }),
{
    lemma_increment_wraps(s, m, y);
    lemma_step_cost(s, m);
    lemma_single_step_slice(s, m, 4);
    reveal(execute);
}

/// Over a slice of 4 cycles, `NOP` moves the program counter by one, adds 4
/// to the cycle counter, leaves the bus alone, and the slice ends by
/// asserting the interrupt line.
pub proof fn lemma_nop_slice(s: Z80, m: BusModel)
    requires
        executes(s, m, 0),
        s.overshoot == 0,
        s.cycles + 23 <= u64::MAX,
    ensures
        run_slice(s, m, 4) == (
            Z80 {
                pc: at(s, 1),
                cycles: (s.cycles + 4) as u64,
                int_pending: true,
                overshoot: 0,
                ..s
            },
            m,
            Ok::<u64, DecodeError>(4),
        ),
{
    lemma_nop_cost(s, m);
    lemma_single_step_slice(s, m, 4);
}

/// Over a slice of 7 cycles, `JR cc,d` runs 12 cycles (5 carried into the
/// next slice) when taken and exactly 7 when not.
pub proof fn lemma_conditional_jump_slice(s: Z80, m: BusModel, cc: u8)
    requires
        cc < 4,
        executes(s, m, (0x20 + cc * 8) as u8),
        s.overshoot == 0,
        s.cycles + 23 <= u64::MAX,
    ensures
        ({
            let (s1, _, r) = run_slice(s, m, 7);
            if cond(s.f, cc) {
                r == Ok::<u64, DecodeError>(12) && s1.overshoot == 5 && s1.pc == relative_target(
                    s,
                    imm8(s, m),
                )
            } else {
                r == Ok::<u64, DecodeError>(7) && s1.overshoot == 0 && s1.pc == at(s, 2)
            }
        }),
{
    lemma_conditional_jump_cost(s, m, cc);
    lemma_step_cost(s, m);
    lemma_single_step_slice(s, m, 7);
}

/// A slice that starts with the line asserted and interrupts enabled in
/// mode 1 begins by acknowledging it: the interrupted program counter is
/// pushed, low byte first, below the old stack pointer, interrupts are
/// disabled and the handler at `0x0038` is entered. The slice then asserts
/// the line anew.
pub proof fn lemma_acknowledge_slice(s: Z80, m: BusModel)
    requires
        m.wf(),
        s.int_pending,
        s.iff1,
        s.im == InterruptMode::Mode1,
        is_storage(wrap16(s.sp - 1)),
        is_storage(wrap16(s.sp - 2)),
        s.overshoot == 0,
        s.cycles + 23 <= u64::MAX,
    ensures
        ({
            let (s1, m1, r) = run_slice(s, m, 13);
            &&& r == Ok::<u64, DecodeError>(13)
            &&& s1.sp == wrap16(s.sp - 2)
            &&& m1.read(s1.sp) == low(s.pc)
            &&& m1.read(wrap16(s1.sp + 1)) == high(s.pc)
            &&& !s1.iff1
            &&& !s1.iff2
            &&& s1.pc == 0x38
            &&& s1.int_pending
        }),
{
    lemma_acknowledge_pushes_pc(s, m);
    lemma_step_cost(s, m);
    reveal(acknowledge);
    assert(step_effect(s, m).unwrap().2 == 13);
    lemma_single_step_slice(s, m, 13);
}

/// An asserted interrupt line stays asserted through every step taken while
/// interrupts are disabled.
pub proof fn lemma_pending_kept(s: Z80, m: BusModel)
    requires
        s.int_pending,
        !s.iff1,
    ensures
        match step_spec(s, m) {
            Ok((s1, _, _)) => s1.int_pending,
            Err(_) => true,
        },
{
    lemma_execute_keeps(s, m);
}

/// Interrupts stay disabled after every step of the run that
/// `run_until(s, m, target)` makes.
pub open spec fn stays_disabled(s: Z80, m: BusModel, target: nat) -> bool
    decreases target,
{
    if target == 0 {
        true
    } else {
        match step_spec(s, m) {
            Ok((s1, m1, c)) => !s1.iff1 && (c == 0 || c >= target || stays_disabled(
                s1,
                m1,
                (target - c) as nat,
            )),
            Err(_) => true,
        }
    }
}

/// While interrupts stay disabled, an asserted line is kept through a whole
/// run and never acknowledged: at its end the line is still asserted and
/// interrupts are still disabled.
pub proof fn lemma_pending_kept_over_run(s: Z80, m: BusModel, target: nat)
    requires
        s.int_pending,
        !s.iff1,
        stays_disabled(s, m, target),
    ensures
        run_until(s, m, target).0.int_pending,
        !run_until(s, m, target).0.iff1,
    decreases target,
{
    if target > 0 {
        lemma_pending_kept(s, m);
        match step_spec(s, m) {
            Ok((s1, m1, c)) => {
                if c != 0 && c < target {
                    lemma_pending_kept_over_run(s1, m1, (target - c) as nat);
                }
            },
            Err(_) => {},
        }
    }
}

/// A slice run with interrupts disabled throughout, starting with the line
/// asserted, keeps it asserted and acknowledges nothing.
pub proof fn lemma_pending_kept_over_slice(s: Z80, m: BusModel, budget: u64)
    requires
        s.int_pending,
        !s.iff1,
        stays_disabled(s, m, slice_target(s, budget)),
    ensures
        run_slice(s, m, budget).0.int_pending,
        !run_slice(s, m, budget).0.iff1,
{
    lemma_pending_kept_over_run(s, m, slice_target(s, budget));
}

/// With the line asserted and interrupts enabled, the next step acknowledges
/// exactly one interrupt: the line is cleared and interrupts disabled, the
/// stack pointer drops by two, and the two bytes below the old stack pointer
/// hold the interrupted program counter, low byte first.
pub proof fn lemma_acknowledge_pushes_pc(s: Z80, m: BusModel)
    requires
        m.wf(),
        s.int_pending,
        s.iff1,
        is_storage(wrap16(s.sp - 1)),
        is_storage(wrap16(s.sp - 2)),
    ensures
        match step_effect(s, m) {
            Ok((s1, m1, _)) => {
                &&& !s1.int_pending
                &&& !s1.iff1
                &&& s1.sp == wrap16(s.sp - 2)
                &&& m1.read(s1.sp) == low(s.pc)
                &&& m1.read(wrap16(s1.sp + 1)) == high(s.pc)
            },
            Err(_) => false,
        },
{
    reveal(acknowledge);
    let a1 = wrap16(s.sp - 1);
    let a2 = wrap16(s.sp - 2);
    let m1 = m.write(a1, high(s.pc));
    lemma_read_after_write(m, a1, high(s.pc));
    lemma_read_after_write(m1, a2, low(s.pc));
    lemma_write_other(m1, a2, a1, low(s.pc));
    assert(wrap16(a2 + 1) == a1);
}

/// `EI` with the line asserted enables interrupts and keeps the line; the
/// step after it acknowledges the interrupt.
pub proof fn lemma_enable_then_acknowledge(s: Z80, m: BusModel)
    requires
        s.int_pending,
        !s.iff1,
        !s.halted,
        m.read(s.pc) == 0xfb,
    ensures
        match step_effect(s, m) {
            Ok((s1, m1, c)) => s1.iff1 && s1.int_pending && c == 4 && s1.pc == at(s, 1)
                && step_effect(s1, m1) == Ok::<(Z80, BusModel, u32), DecodeError>(
                acknowledge(s1, m1),
            ),
            Err(_) => false,
        },
{
    reveal(execute);
}

/// A step that executes the opcode `op`.
pub open spec fn executes(s: Z80, m: BusModel, op: u8) -> bool {
    &&& !(s.int_pending && s.iff1)
    &&& !s.halted
    &&& m.read(s.pc) == op
}

proof fn lemma_inc8_of_max(f: u8)
    ensures
        inc8(255, f).0 == 0,
        zero_flag(inc8(255, f).1),
        half_flag(inc8(255, f).1),
        !sign_flag(inc8(255, f).1),
        !parity_flag(inc8(255, f).1),
        !subtract_flag(inc8(255, f).1),
        carry_flag(inc8(255, f).1) == carry_flag(f),
{
    let fl = inc8(255, f).1;
    assert(fl == 0x50 + weight(carry_flag(f), 1));
}

proof fn lemma_reg_after_set(s: Z80, m: BusModel, y: u8, v: u8)
    requires
        y != 6,
    ensures
        reg(set_reg(s, m, y, v).0, set_reg(s, m, y, v).1, y) == v,
{
}

/// `INC r` on a register holding 255 gives 0, sets zero and half-carry,
/// clears sign, overflow and subtract, keeps carry, and costs 4 cycles.
#[verifier::rlimit(40)]
pub proof fn lemma_increment_wraps(s: Z80, m: BusModel, y: u8)
    requires
        y < 8,
        y != 6,
        executes(s, m, (y * 8 + 4) as u8),
        reg(s, m, y) == 255,
    ensures
        match step_effect(s, m) {
            Ok((s1, m1, c)) => {
                &&& reg(s1, m1, y) == 0
                &&& zero_flag(s1.f)
                &&& half_flag(s1.f)
                &&& !sign_flag(s1.f)
                &&& !parity_flag(s1.f)
                &&& !subtract_flag(s1.f)
                &&& carry_flag(s1.f) == carry_flag(s.f)
                &&& c == 4
            },
            Err(_) => false,
        },
{
    let op = (y * 8 + 4) as u8;
    assert(op / 64 == 0 && op / 8 % 8 == y && op % 8 == 4) by (bit_vector)
        requires
            y < 8,
            op == (y * 8 + 4) as u8,
    ;
    assert(execute(s, m) == Ok::<(Z80, BusModel, u32), DecodeError>(exec_x0(s, m, op))) by {
        reveal(execute);
    }
    lemma_inc8_of_max(s.f);
    let fl = inc8(255, s.f).1;
    let s0 = Z80 { f: fl, pc: at(s, 1), ..s };
    lemma_reg_after_set(s0, m, y, 0);
    assert(exec_x0(s, m, op) == (set_reg(s0, m, y, 0).0, set_reg(s0, m, y, 0).1, 4u32));
    assert(set_reg(s0, m, y, 0).0.f == fl);
}

/// `INC rr` on a register pair holding 65535 gives 0 in 6 cycles.
#[verifier::rlimit(40)]
pub proof fn lemma_increment_pair_wraps(s: Z80, m: BusModel, p: u8)
    requires
        p < 4,
        executes(s, m, (p * 16 + 3) as u8),
        rp(s, p) == 0xffff,
    ensures
        match step_effect(s, m) {
            Ok((s1, _, c)) => rp(s1, p) == 0 && c == 6,
            Err(_) => false,
        },
{
    let op = (p * 16 + 3) as u8;
    assert(op / 64 == 0 && op / 8 % 8 / 2 == p && op / 8 % 8 % 2 == 0 && op % 8 == 3)
        by (bit_vector)
        requires
            p < 4,
            op == (p * 16 + 3) as u8,
    ;
    assert(execute(s, m) == Ok::<(Z80, BusModel, u32), DecodeError>(exec_x0(s, m, op))) by {
        reveal(execute);
    }
    assert(wrap16(0xffff + 1int) == 0);
    let s1 = set_rp(jump(s, at(s, 1)), p, 0);
    assert(exec_x0(s, m, op) == (s1, m, 6u32));
    assert(rp(s1, p) == 0);
}

/// `NOP` costs 4 cycles and only moves the program counter.
pub proof fn lemma_nop_cost(s: Z80, m: BusModel)
    requires
        executes(s, m, 0),
    ensures
        step_effect(s, m) == Ok::<(Z80, BusModel, u32), DecodeError>((jump(s, at(s, 1)), m, 4)),
{
    reveal(execute);
}

/// `JR cc,d` costs 12 cycles when taken and 7 when not.
pub proof fn lemma_conditional_jump_cost(s: Z80, m: BusModel, cc: u8)
    requires
        cc < 4,
        executes(s, m, (0x20 + cc * 8) as u8),
    ensures
        match step_effect(s, m) {
            Ok((s1, _, c)) => if cond(s.f, cc) {
                c == 12 && s1.pc == relative_target(s, imm8(s, m))
            } else {
                c == 7 && s1.pc == at(s, 2)
            },
            Err(_) => false,
        },
{
    reveal(execute);
    let op = (0x20 + cc * 8) as u8;
    assert(op / 64 == 0 && op / 8 % 8 == cc + 4 && op % 8 == 0) by (bit_vector)
        requires
            cc < 4,
            op == (0x20 + cc * 8) as u8,
    ;
    assert(execute(s, m) == Ok::<(Z80, BusModel, u32), DecodeError>(exec_x0(s, m, op)));
}

fn wadd(x: u16, k: u16) -> (r: u16)
    ensures
        r == wrap16(x + k),
{
    ((x as u32 + k as u32) % 0x10000) as u16
}

fn wsub(x: u16, k: u16) -> (r: u16)
    ensures
        r == wrap16(x - k),
{
    proof {
        vstd::arithmetic::div_mod::lemma_mod_add_multiples_vanish(x - k, 0x10000);
    }
    ((x as u32 + 0x10000 - k as u32) % 0x10000) as u16
}

fn join(hi: u8, lo: u8) -> (r: u16)
    ensures
        r == pair(hi, lo),
{
    hi as u16 * 0x100 + lo as u16
}

fn high_byte(v: u16) -> (r: u8)
    ensures
        r == high(v),
{
    (v / 0x100) as u8
}

fn low_byte(v: u16) -> (r: u8)
    ensures
        r == low(v),
{
    (v % 0x100) as u8
}

fn displace(base: u16, d: u8) -> (r: u16)
    ensures
        r == wrap16(base + signed(d)),
{
    let t: u32 = base as u32 + d as u32 + if d >= 0x80 {
        0xff00
    } else {
        0
    };
    proof {
        if d >= 0x80 {
            vstd::arithmetic::div_mod::lemma_mod_add_multiples_vanish(base + signed(d), 0x10000);
        }
    }
    (t % 0x10000) as u16
}

fn relative_target_exec(pc: u16, d: u8) -> (r: u16)
    ensures
        r == wrap16(pc + 2 + signed(d)),
{
    let t: u32 = pc as u32 + 2 + d as u32 + if d >= 0x80 {
        0xff00
    } else {
        0
    };
    proof {
        if d >= 0x80 {
            vstd::arithmetic::div_mod::lemma_mod_add_multiples_vanish(pc + 2 + signed(d), 0x10000);
        }
    }
    (t % 0x10000) as u16
}

impl Default for Z80 {
    fn default() -> (r: Z80)
        ensures
            r == initial_state(),
    {
        Z80::new()
    }
}

impl Z80 {
    /// A processor in its reset state.
    pub fn new() -> (r: Z80)
        ensures
            r == initial_state(),
    {
        Z80 {
            a: 0,
            f: 0,
            b: 0,
            c: 0,
            d: 0,
            e: 0,
            h: 0,
            l: 0,
            a_alt: 0,
            f_alt: 0,
            b_alt: 0,
            c_alt: 0,
            d_alt: 0,
            e_alt: 0,
            h_alt: 0,
            l_alt: 0,
            ix: 0,
            iy: 0,
            i: 0,
            pc: 0,
            sp: 0,
            iff1: false,
            iff2: false,
            im: InterruptMode::Mode0,
            halted: false,
            int_pending: false,
            data_bus: 0xff,
            cycles: 0,
            overshoot: 0,
        }
    }

    /// Returns every register, the interrupt state and the cycle counter to
    /// their initial values; a pending interrupt is dropped.
    pub fn reset(&mut self)
        ensures
            *final(self) == initial_state(),
    {
        *self = Z80::new();
    }

    /// Asserts the interrupt line. It stays asserted until the processor
    /// acknowledges it at an instruction boundary with interrupts enabled.
    pub fn interrupt(&mut self)
        ensures
            *final(self) == (Z80 { int_pending: true, ..*old(self) }),
    {
        self.int_pending = true;
    }

    pub fn bc(&self) -> (r: u16)
        ensures
            r == bc(*self),
    {
        join(self.b, self.c)
    }

    pub fn de(&self) -> (r: u16)
        ensures
            r == de(*self),
    {
        join(self.d, self.e)
    }

    pub fn hl(&self) -> (r: u16)
        ensures
            r == hl(*self),
    {
        join(self.h, self.l)
    }

    fn at(&self, k: u16) -> (r: u16)
        ensures
            r == at(*self, k as int),
    {
        wadd(self.pc, k)
    }

    fn imm8(&self, bus: &MemoryBus) -> (r: u8)
        requires
            bus.wf(),
        ensures
            r == imm8(*self, bus@),
    {
        bus.read(self.at(1))
    }

    fn imm16(&self, bus: &MemoryBus) -> (r: u16)
        requires
            bus.wf(),
        ensures
            r == imm16(*self, bus@),
    {
        join(bus.read(self.at(2)), bus.read(self.at(1)))
    }

    fn read_reg(&self, bus: &MemoryBus, i: u8) -> (r: u8)
        requires
            bus.wf(),
        ensures
            r == reg(*self, bus@, i),
    {
        if i == 0 {
            self.b
        } else if i == 1 {
            self.c
        } else if i == 2 {
            self.d
        } else if i == 3 {
            self.e
        } else if i == 4 {
            self.h
        } else if i == 5 {
            self.l
        } else if i == 6 {
            bus.read(self.hl())
        } else {
            self.a
        }
    }

    fn write_reg(&mut self, bus: &mut MemoryBus, i: u8, v: u8)
        requires
            old(bus).wf(),
        ensures
            final(bus).wf(),
            (*final(self), final(bus)@) == set_reg(*old(self), old(bus)@, i, v),
    {
        if i == 0 {
            self.b = v;
        } else if i == 1 {
            self.c = v;
        } else if i == 2 {
            self.d = v;
        } else if i == 3 {
            self.e = v;
        } else if i == 4 {
            self.h = v;
        } else if i == 5 {
            self.l = v;
        } else if i == 6 {
            let a = self.hl();
            bus.write(a, v);
        } else {
            self.a = v;
        }
    }

    fn read_rp(&self, p: u8) -> (r: u16)
        ensures
            r == rp(*self, p),
    {
        if p == 0 {
            self.bc()
        } else if p == 1 {
            self.de()
        } else if p == 2 {
            self.hl()
        } else {
            self.sp
        }
    }

    fn write_rp(&mut self, p: u8, v: u16)
        ensures
            *final(self) == set_rp(*old(self), p, v),
    {
        if p == 0 {
            self.b = high_byte(v);
            self.c = low_byte(v);
        } else if p == 1 {
            self.d = high_byte(v);
            self.e = low_byte(v);
        } else if p == 2 {
            self.h = high_byte(v);
            self.l = low_byte(v);
        } else {
            self.sp = v;
        }
    }

    fn read_rp2(&self, p: u8) -> (r: u16)
        ensures
            r == rp2(*self, p),
    {
        if p == 3 {
            join(self.a, self.f)
        } else {
            self.read_rp(p)
        }
    }

    fn write_rp2(&mut self, p: u8, v: u16)
        ensures
            *final(self) == set_rp2(*old(self), p, v),
    {
        if p == 3 {
            self.a = high_byte(v);
            self.f = low_byte(v);
        } else {
            self.write_rp(p, v);
        }
    }

    fn cond(&self, y: u8) -> (r: bool)
        ensures
            r == cond(self.f, y),
    {
        let f = self.f;
        if y == 0 {
            !(f / 0x40 % 2 == 1)
        } else if y == 1 {
            f / 0x40 % 2 == 1
        } else if y == 2 {
            !(f % 2 == 1)
        } else if y == 3 {
            f % 2 == 1
        } else if y == 4 {
            !(f / 0x04 % 2 == 1)
        } else if y == 5 {
            f / 0x04 % 2 == 1
        } else if y == 6 {
            !(f / 0x80 % 2 == 1)
        } else {
            f / 0x80 % 2 == 1
        }
    }

    fn push(&mut self, bus: &mut MemoryBus, v: u16)
        requires
            old(bus).wf(),
        ensures
            final(bus).wf(),
            (*final(self), final(bus)@) == push(*old(self), old(bus)@, v),
    {
        let sp1 = wsub(self.sp, 1);
        let sp2 = wsub(self.sp, 2);
        bus.write(sp1, high_byte(v));
        bus.write(sp2, low_byte(v));
        self.sp = sp2;
    }

    fn pop(&mut self, bus: &MemoryBus) -> (r: u16)
        requires
            bus.wf(),
        ensures
            (*final(self), r) == pop(*old(self), bus@),
    {
        let v = join(bus.read(wadd(self.sp, 1)), bus.read(self.sp));
        self.sp = wadd(self.sp, 2);
        v
    }
}

impl Z80 {
    fn exec_relative(&mut self, y: u8, d: u8) -> (c: u32)
        ensures
            (*final(self), c) == exec_relative(*old(self), y, d),
    {
        if y == 0 {
            self.pc = self.at(1);
            4
        } else if y == 1 {
            let (a, f) = (self.a, self.f);
            self.a = self.a_alt;
            self.f = self.f_alt;
            self.a_alt = a;
            self.f_alt = f;
            self.pc = self.at(1);
            4
        } else if y == 2 {
            let b = dec8_exec(self.b, self.f).0;
            self.b = b;
            if b != 0 {
                self.pc = relative_target_exec(self.pc, d);
                13
            } else {
                self.pc = self.at(2);
                8
            }
        } else if y == 3 {
            self.pc = relative_target_exec(self.pc, d);
            12
        } else if self.cond(y - 4) {
            self.pc = relative_target_exec(self.pc, d);
            12
        } else {
            self.pc = self.at(2);
            7
        }
    }

    fn exec_indirect(&mut self, bus: &mut MemoryBus, p: u8, q: u8) -> (c: u32)
        requires
            old(bus).wf(),
        ensures
            final(bus).wf(),
            (*final(self), final(bus)@, c) == exec_indirect(*old(self), old(bus)@, p, q),
    {
        let nn = self.imm16(bus);
        if q == 0 {
            if p == 0 {
                bus.write(self.bc(), self.a);
                self.pc = self.at(1);
                7
            } else if p == 1 {
                bus.write(self.de(), self.a);
                self.pc = self.at(1);
                7
            } else if p == 2 {
                bus.write(nn, self.l);
                bus.write(wadd(nn, 1), self.h);
                self.pc = self.at(3);
                16
            } else {
                bus.write(nn, self.a);
                self.pc = self.at(3);
                13
            }
        } else {
            if p == 0 {
                self.a = bus.read(self.bc());
                self.pc = self.at(1);
                7
            } else if p == 1 {
                self.a = bus.read(self.de());
                self.pc = self.at(1);
                7
            } else if p == 2 {
                self.l = bus.read(nn);
                self.h = bus.read(wadd(nn, 1));
                self.pc = self.at(3);
                16
            } else {
                self.a = bus.read(nn);
                self.pc = self.at(3);
                13
            }
        }
    }

    fn exec_accumulator(&mut self, y: u8)
        ensures
            *final(self) == exec_accumulator(*old(self), y),
    {
        let f = self.f;
        let s = f / 0x80 % 2 == 1;
        let z = f / 0x40 % 2 == 1;
        let pv = f / 0x04 % 2 == 1;
        let c = f % 2 == 1;
        if y < 4 {
            let (a, nf) = rotate_a_exec(y, self.a, f);
            self.a = a;
            self.f = nf;
        } else if y == 4 {
            let (a, nf) = daa_exec(self.a, f);
            self.a = a;
            self.f = nf;
        } else if y == 5 {
            let a = 0xff - self.a;
            self.a = a;
            self.f = make_flags(s, z, true, pv, true, c, a);
        } else if y == 6 {
            self.f = make_flags(s, z, false, pv, false, true, self.a);
        } else {
            self.f = make_flags(s, z, c, pv, false, !c, self.a);
        }
        self.pc = self.at(1);
    }

    fn exec_x0(&mut self, bus: &mut MemoryBus, op: u8) -> (c: u32)
        requires
            old(bus).wf(),
        ensures
            final(bus).wf(),
            (*final(self), final(bus)@, c) == exec_x0(*old(self), old(bus)@, op),
    {
        let y: u8 = op / 8 % 8;
        let z: u8 = op % 8;
        let p: u8 = y / 2;
        let q: u8 = y % 2;
        if z == 0 {
            let d = self.imm8(bus);
            self.exec_relative(y, d)
        } else if z == 1 {
            if q == 0 {
                let nn = self.imm16(bus);
                self.pc = self.at(3);
                self.write_rp(p, nn);
                10
            } else {
                let (r, f) = add16_exec(self.hl(), self.read_rp(p), self.f);
                self.f = f;
                self.pc = self.at(1);
                self.write_rp(2, r);
                11
            }
        } else if z == 2 {
            self.exec_indirect(bus, p, q)
        } else if z == 3 {
            let v = self.read_rp(p);
            let nv = if q == 0 {
                wadd(v, 1)
            } else {
                wsub(v, 1)
            };
            self.pc = self.at(1);
            self.write_rp(p, nv);
            6
        } else if z == 4 || z == 5 {
            let old_v = self.read_reg(bus, y);
            let (v, f) = if z == 4 {
                inc8_exec(old_v, self.f)
            } else {
                dec8_exec(old_v, self.f)
            };
            self.f = f;
            self.pc = self.at(1);
            self.write_reg(bus, y, v);
            if y == 6 {
                11
            } else {
                4
            }
        } else if z == 6 {
            let n = self.imm8(bus);
            self.pc = self.at(2);
            self.write_reg(bus, y, n);
            if y == 6 {
                10
            } else {
                7
            }
        } else {
            self.exec_accumulator(y);
            4
        }
    }

    fn exec_load8(&mut self, bus: &mut MemoryBus, op: u8) -> (c: u32)
        requires
            old(bus).wf(),
        ensures
            final(bus).wf(),
            (*final(self), final(bus)@, c) == exec_load8(*old(self), old(bus)@, op),
    {
        let y: u8 = op / 8 % 8;
        let z: u8 = op % 8;
        if y == 6 && z == 6 {
            self.halted = true;
            self.pc = self.at(1);
            4
        } else {
            let v = self.read_reg(bus, z);
            self.pc = self.at(1);
            self.write_reg(bus, y, v);
            if y == 6 || z == 6 {
                7
            } else {
                4
            }
        }
    }

    fn exec_alu(&mut self, bus: &MemoryBus, op: u8) -> (c: u32)
        requires
            bus.wf(),
        ensures
            (*final(self), c) == exec_alu(*old(self), bus@, op),
    {
        let y: u8 = op / 8 % 8;
        let z: u8 = op % 8;
        let (a, f) = alu8_exec(y, self.a, self.read_reg(bus, z), self.f);
        self.a = a;
        self.f = f;
        self.pc = self.at(1);
        if z == 6 {
            7
        } else {
            4
        }
    }
}

impl Z80 {
    fn exec_cb(&mut self, bus: &mut MemoryBus) -> (c: u32)
        requires
            old(bus).wf(),
        ensures
            final(bus).wf(),
            (*final(self), final(bus)@, c) == exec_cb(*old(self), old(bus)@),
    {
        let op = self.imm8(bus);
        let x: u8 = op / 64;
        let y: u8 = op / 8 % 8;
        let z: u8 = op % 8;
        let v = self.read_reg(bus, z);
        self.pc = self.at(2);
        let slow = z == 6;
        if x == 0 {
            let (r, f) = shift8_flags_exec(y, v, self.f);
            self.f = f;
            self.write_reg(bus, z, r);
            if slow {
                15
            } else {
                8
            }
        } else if x == 1 {
            self.f = bit_test_exec(y, v, self.f);
            if slow {
                12
            } else {
                8
            }
        } else {
            let r = if x == 2 {
                v & !(1u8 << y)
            } else {
                v | (1u8 << y)
            };
            self.write_reg(bus, z, r);
            if slow {
                15
            } else {
                8
            }
        }
    }

    fn exec_block_copy(&mut self, bus: &mut MemoryBus, y: u8) -> (c: u32)
        requires
            old(bus).wf(),
        ensures
            final(bus).wf(),
            (*final(self), final(bus)@, c) == exec_block_copy(*old(self), old(bus)@, y),
    {
        let hl = self.hl();
        let de = self.de();
        let v = bus.read(hl);
        let up = y % 2 == 0;
        let hl1 = if up {
            wadd(hl, 1)
        } else {
            wsub(hl, 1)
        };
        let de1 = if up {
            wadd(de, 1)
        } else {
            wsub(de, 1)
        };
        let bc1 = wsub(self.bc(), 1);
        let n: u16 = (v as u16 + self.a as u16) % 0x100;
        let f = self.f;
        self.f = make_flags(
            f / 0x80 % 2 == 1,
            f / 0x40 % 2 == 1,
            false,
            bc1 != 0,
            false,
            f % 2 == 1,
            (n / 2 % 2 * 0x20 + n / 8 % 2 * 0x08) as u8,
        );
        let repeat = y >= 6 && bc1 != 0;
        if !repeat {
            self.pc = self.at(2);
        }
        self.write_rp(0, bc1);
        self.write_rp(1, de1);
        self.write_rp(2, hl1);
        bus.write(de, v);
        if repeat {
            21
        } else {
            16
        }
    }

    fn exec_ed(&mut self, bus: &mut MemoryBus) -> (r: Result<u32, DecodeError>)
        requires
            old(bus).wf(),
        ensures
            final(bus).wf(),
            match r {
                Ok(c) => exec_ed(*old(self), old(bus)@) == Ok::<(Z80, BusModel, u32), DecodeError>(
                    (*final(self), final(bus)@, c),
                ),
                Err(e) => exec_ed(*old(self), old(bus)@) == Err::<(Z80, BusModel, u32), DecodeError>(
                    e,
                ) && *final(self) == *old(self) && final(bus)@ == old(bus)@,
            },
    {
        let op = self.imm8(bus);
        let x: u8 = op / 64;
        let y: u8 = op / 8 % 8;
        let z: u8 = op % 8;
        let p: u8 = y / 2;
        let q: u8 = y % 2;
        let next = self.at(2);
        if x == 1 && z == 2 {
            let (r, f) = if q == 0 {
                sbc16_exec(self.hl(), self.read_rp(p), self.f)
            } else {
                adc16_exec(self.hl(), self.read_rp(p), self.f)
            };
            self.f = f;
            self.pc = next;
            self.write_rp(2, r);
            Ok(15)
        } else if x == 1 && z == 3 {
            let nn = join(bus.read(self.at(3)), bus.read(next));
            let nn1 = wadd(nn, 1);
            if q == 0 {
                let v = self.read_rp(p);
                bus.write(nn, low_byte(v));
                bus.write(nn1, high_byte(v));
                self.pc = self.at(4);
            } else {
                let v = join(bus.read(nn1), bus.read(nn));
                self.pc = self.at(4);
                self.write_rp(p, v);
            }
            Ok(20)
        } else if x == 1 && z == 4 {
            let (a, f) = sub8_exec(0, self.a, false, false);
            self.a = a;
            self.f = f;
            self.pc = next;
            Ok(8)
        } else if x == 1 && z == 5 {
            let v = self.pop(bus);
            self.pc = v;
            self.iff1 = self.iff2;
            Ok(14)
        } else if x == 1 && z == 6 {
            self.im = if y % 4 == 2 {
                InterruptMode::Mode1
            } else if y % 4 == 3 {
                InterruptMode::Mode2
            } else {
                InterruptMode::Mode0
            };
            self.pc = next;
            Ok(8)
        } else if x == 1 && z == 7 && y == 0 {
            self.i = self.a;
            self.pc = next;
            Ok(9)
        } else if x == 1 && z == 7 && y == 2 {
            let i = self.i;
            self.f = make_flags(i >= 0x80, i == 0, false, self.iff2, false, self.f % 2 == 1, i);
            self.a = i;
            self.pc = next;
            Ok(9)
        } else if x == 2 && z == 0 && y >= 4 {
            Ok(self.exec_block_copy(bus, y))
        } else if x == 2 && z == 1 && y >= 4 {
            Ok(self.exec_block_compare(bus, y))
        } else if x == 1 && z == 7 && (y == 4 || y == 5) {
            Ok(self.exec_digit_rotate(bus, y))
        } else if x == 1 && z == 0 {
            self.f = make_flags(false, true, false, true, false, self.f % 2 == 1, 0);
            self.pc = next;
            if y != 6 {
                self.write_reg(bus, y, 0);
            }
            Ok(12)
        } else if x == 1 && z == 1 {
            let v = if y == 6 {
                0
            } else {
                self.read_reg(bus, y)
            };
            if self.c == 0 {
                self.data_bus = v;
            }
            self.pc = next;
            Ok(12)
        } else {
            Err(DecodeError { address: self.pc, prefix: 0xed, opcode: op })
        }
    }

    fn exec_misc(&mut self, bus: &mut MemoryBus, y: u8) -> (c: u32)
        requires
            old(bus).wf(),
        ensures
            final(bus).wf(),
            (*final(self), final(bus)@, c) == exec_misc(*old(self), old(bus)@, y),
    {
        if y == 0 {
            self.pc = self.imm16(bus);
            10
        } else if y == 1 {
            self.exec_cb(bus)
        } else if y == 2 {
            if self.imm8(bus) == 0 {
                self.data_bus = self.a;
            }
            self.pc = self.at(2);
            11
        } else if y == 3 {
            self.a = 0;
            self.pc = self.at(2);
            11
        } else if y == 4 {
            let sp1 = wadd(self.sp, 1);
            let lo = bus.read(self.sp);
            let hi = bus.read(sp1);
            bus.write(self.sp, self.l);
            bus.write(sp1, self.h);
            self.h = hi;
            self.l = lo;
            self.pc = self.at(1);
            19
        } else if y == 5 {
            let (d, e) = (self.d, self.e);
            self.d = self.h;
            self.e = self.l;
            self.h = d;
            self.l = e;
            self.pc = self.at(1);
            4
        } else if y == 6 {
            self.iff1 = false;
            self.iff2 = false;
            self.pc = self.at(1);
            4
        } else {
            self.iff1 = true;
            self.iff2 = true;
            self.pc = self.at(1);
            4
        }
    }

    fn exec_x3(&mut self, bus: &mut MemoryBus, op: u8) -> (r: Result<u32, DecodeError>)
        requires
            old(bus).wf(),
        ensures
            final(bus).wf(),
            match r {
                Ok(c) => exec_x3(*old(self), old(bus)@, op) == Ok::<
                    (Z80, BusModel, u32),
                    DecodeError,
                >((*final(self), final(bus)@, c)),
                Err(e) => exec_x3(*old(self), old(bus)@, op) == Err::<
                    (Z80, BusModel, u32),
                    DecodeError,
                >(e) && *final(self) == *old(self) && final(bus)@ == old(bus)@,
            },
    {
        let y: u8 = op / 8 % 8;
        let z: u8 = op % 8;
        let p: u8 = y / 2;
        let q: u8 = y % 2;
        if z == 0 {
            if self.cond(y) {
                self.pc = self.pop(bus);
                Ok(11)
            } else {
                self.pc = self.at(1);
                Ok(5)
            }
        } else if z == 1 {
            if q == 0 {
                let next = self.at(1);
                let v = self.pop(bus);
                self.pc = next;
                self.write_rp2(p, v);
                Ok(10)
            } else if p == 0 {
                self.pc = self.pop(bus);
                Ok(10)
            } else if p == 1 {
                let (b, c, d, e, h, l) = (self.b, self.c, self.d, self.e, self.h, self.l);
                self.b = self.b_alt;
                self.c = self.c_alt;
                self.d = self.d_alt;
                self.e = self.e_alt;
                self.h = self.h_alt;
                self.l = self.l_alt;
                self.b_alt = b;
                self.c_alt = c;
                self.d_alt = d;
                self.e_alt = e;
                self.h_alt = h;
                self.l_alt = l;
                self.pc = self.at(1);
                Ok(4)
            } else if p == 2 {
                self.pc = self.hl();
                Ok(4)
            } else {
                self.sp = self.hl();
                self.pc = self.at(1);
                Ok(6)
            }
        } else if z == 2 {
            if self.cond(y) {
                self.pc = self.imm16(bus);
            } else {
                self.pc = self.at(3);
            }
            Ok(10)
        } else if z == 3 {
            Ok(self.exec_misc(bus, y))
        } else if z == 4 {
            if self.cond(y) {
                let nn = self.imm16(bus);
                let ret = self.at(3);
                self.push(bus, ret);
                self.pc = nn;
                Ok(17)
            } else {
                self.pc = self.at(3);
                Ok(10)
            }
        } else if z == 5 {
            if q == 0 {
                let v = self.read_rp2(p);
                self.pc = self.at(1);
                self.push(bus, v);
                Ok(11)
            } else if p == 0 {
                let nn = self.imm16(bus);
                let ret = self.at(3);
                self.push(bus, ret);
                self.pc = nn;
                Ok(17)
            } else if p == 2 {
                self.exec_ed(bus)
            } else {
                self.exec_indexed(bus, op)
            }
        } else if z == 6 {
            let (a, f) = alu8_exec(y, self.a, self.imm8(bus), self.f);
            self.a = a;
            self.f = f;
            self.pc = self.at(2);
            Ok(7)
        } else {
            let ret = self.at(1);
            self.push(bus, ret);
            self.pc = y as u16 * 8;
            Ok(11)
        }
    }

    fn acknowledge(&mut self, bus: &mut MemoryBus) -> (c: u32)
        requires
            old(bus).wf(),
        ensures
            final(bus).wf(),
            (*final(self), final(bus)@, c) == acknowledge(*old(self), old(bus)@),
    {
        reveal(acknowledge);
        let ret = self.pc;
        self.iff1 = false;
        self.iff2 = false;
        self.halted = false;
        self.int_pending = false;
        self.push(bus, ret);
        match self.im {
            InterruptMode::Mode0 => {
                self.pc = (self.data_bus & 0x38) as u16;
                13
            },
            InterruptMode::Mode1 => {
                self.pc = 0x38;
                13
            },
            InterruptMode::Mode2 => {
                let t = join(self.i, self.data_bus);
                self.pc = join(bus.read(wadd(t, 1)), bus.read(t));
                19
            },
        }
    }

    fn execute(&mut self, bus: &mut MemoryBus) -> (r: Result<u32, DecodeError>)
        requires
            old(bus).wf(),
        ensures
            final(bus).wf(),
            match r {
                Ok(c) => execute(*old(self), old(bus)@) == Ok::<(Z80, BusModel, u32), DecodeError>(
                    (*final(self), final(bus)@, c),
                ),
                Err(e) => execute(*old(self), old(bus)@) == Err::<(Z80, BusModel, u32), DecodeError>(
                    e,
                ) && *final(self) == *old(self) && final(bus)@ == old(bus)@,
            },
    {
        reveal(execute);
        let op = bus.read(self.pc);
        let x: u8 = op / 64;
        if x == 0 {
            Ok(self.exec_x0(bus, op))
        } else if x == 1 {
            Ok(self.exec_load8(bus, op))
        } else if x == 2 {
            Ok(self.exec_alu(bus, op))
        } else {
            self.exec_x3(bus, op)
        }
    }
}

impl Z80 {
    /// Executes one step: acknowledges a pending interrupt when interrupts
    /// are enabled, idles for 4 cycles while halted, or executes the
    /// instruction at the program counter. Returns the cycles spent. An
    /// undefined opcode leaves the processor and the bus untouched.
    pub fn step(&mut self, bus: &mut MemoryBus) -> (r: Result<u32, DecodeError>)
        requires
            old(bus).wf(),
            old(self).cycles + 23 <= u64::MAX,
        ensures
            final(bus).wf(),
            match r {
                Ok(c) => step_spec(*old(self), old(bus)@) == Ok::<
                    (Z80, BusModel, u32),
                    DecodeError,
                >((*final(self), final(bus)@, c)) && 4 <= c <= 23 && final(self).cycles == old(self).cycles
                    + c && final(self).overshoot == old(self).overshoot,
                Err(e) => step_spec(*old(self), old(bus)@) == Err::<
                    (Z80, BusModel, u32),
                    DecodeError,
                >(e) && *final(self) == *old(self) && final(bus)@ == old(bus)@,
            },
    {
        let ghost s0 = *self;
        let ghost m0 = bus@;
        proof {
            lemma_step_cost(s0, m0);
        }
        let r = if self.int_pending && self.iff1 {
            Ok(self.acknowledge(bus))
        } else if self.halted {
            Ok(4)
        } else {
            self.execute(bus)
        };
        match r {
            Ok(c) => {
                assert(step_effect(s0, m0) == Ok::<(Z80, BusModel, u32), DecodeError>(
                    (*self, bus@, c),
                ));
                assert(4 <= c <= 23);
                self.cycles = self.cycles + c as u64;
                Ok(c)
            },
            Err(e) => Err(e),
        }
    }

    /// Runs one time slice of `budget` cycles, less the overshoot of the
    /// previous slice, then asserts the interrupt line. Returns the cycles
    /// spent, or the decode error that stopped the slice.
    pub fn run_cycles(&mut self, bus: &mut MemoryBus, budget: u64) -> (r: Result<u64, DecodeError>)
        requires
            old(bus).wf(),
            old(self).cycles + budget + 23 <= u64::MAX,
        ensures
            final(bus).wf(),
            (*final(self), final(bus)@, r) == run_slice(*old(self), old(bus)@, budget),
            r is Ok ==> final(self).int_pending,
            r is Ok && old(self).overshoot < budget ==> final(self).overshoot < 23,
    {
        let start = self.cycles;
        let target: u64 = if self.overshoot >= budget {
            0
        } else {
            budget - self.overshoot
        };
        let mut spent: u64 = 0;
        while spent < target
            invariant
                bus.wf(),
                target <= budget,
                target == slice_target(*old(self), budget),
                spent < target + 23,
                self.cycles == start + spent,
                self.overshoot == old(self).overshoot,
                start == old(self).cycles,
                start + budget + 23 <= u64::MAX,
                spent < target ==> run_until(*old(self), old(bus)@, target as nat) == run_until(
                    *self,
                    bus@,
                    (target - spent) as nat,
                ),
                spent >= target ==> run_until(*old(self), old(bus)@, target as nat) == (
                *self,
                bus@,
                Ok::<(), DecodeError>(()),
                ),
            decreases target + 23 - spent,
        {
            match self.step(bus) {
                Ok(c) => {
                    spent = spent + c as u64;
                },
                Err(e) => {
                    return Err(e);
                },
            }
        }
        self.overshoot = if self.overshoot >= budget {
            self.overshoot - budget
        } else {
            spent - target
        };
        self.int_pending = true;
        Ok(spent)
    }
}

impl Z80 {
    fn index_of(&self, prefix: u8) -> (r: u16)
        ensures
            r == index_of(*self, prefix),
    {
        if prefix == 0xdd {
            self.ix
        } else {
            self.iy
        }
    }

    fn set_index(&mut self, prefix: u8, v: u16)
        ensures
            *final(self) == set_index(*old(self), prefix, v),
    {
        if prefix == 0xdd {
            self.ix = v;
        } else {
            self.iy = v;
        }
    }

    fn exec_indexed_bits(&mut self, bus: &mut MemoryBus, prefix: u8) -> (r: Result<u32, DecodeError>)
        requires
            old(bus).wf(),
        ensures
            final(bus).wf(),
            match r {
                Ok(c) => exec_indexed_bits(*old(self), old(bus)@, prefix) == Ok::<
                    (Z80, BusModel, u32),
                    DecodeError,
                >((*final(self), final(bus)@, c)),
                Err(e) => exec_indexed_bits(*old(self), old(bus)@, prefix) == Err::<
                    (Z80, BusModel, u32),
                    DecodeError,
                >(e) && *final(self) == *old(self) && final(bus)@ == old(bus)@,
            },
    {
        let op = bus.read(self.at(3));
        let x: u8 = op / 64;
        let y: u8 = op / 8 % 8;
        let z: u8 = op % 8;
        let ea = displace(self.index_of(prefix), bus.read(self.at(2)));
        let v = bus.read(ea);
        if x == 1 {
            self.f = bit_test_exec(y, v, self.f);
            self.pc = self.at(4);
            Ok(20)
        } else if z != 6 {
            Err(DecodeError { address: self.pc, prefix: prefix, opcode: op })
        } else if x == 0 {
            let (r, f) = shift8_flags_exec(y, v, self.f);
            self.f = f;
            self.pc = self.at(4);
            bus.write(ea, r);
            Ok(23)
        } else {
            let r = if x == 2 {
                v & !(1u8 << y)
            } else {
                v | (1u8 << y)
            };
            self.pc = self.at(4);
            bus.write(ea, r);
            Ok(23)
        }
    }

    fn exec_indexed(&mut self, bus: &mut MemoryBus, prefix: u8) -> (r: Result<u32, DecodeError>)
        requires
            old(bus).wf(),
        ensures
            final(bus).wf(),
            match r {
                Ok(c) => exec_indexed(*old(self), old(bus)@, prefix) == Ok::<
                    (Z80, BusModel, u32),
                    DecodeError,
                >((*final(self), final(bus)@, c)),
                Err(e) => exec_indexed(*old(self), old(bus)@, prefix) == Err::<
                    (Z80, BusModel, u32),
                    DecodeError,
                >(e) && *final(self) == *old(self) && final(bus)@ == old(bus)@,
            },
    {
        let op = self.imm8(bus);
        let x: u8 = op / 64;
        let y: u8 = op / 8 % 8;
        let z: u8 = op % 8;
        let p: u8 = y / 2;
        let q: u8 = y % 2;
        let ix = self.index_of(prefix);
        let ea = displace(ix, bus.read(self.at(2)));
        let nn = join(bus.read(self.at(3)), bus.read(self.at(2)));
        if op == 0x21 {
            self.pc = self.at(4);
            self.set_index(prefix, nn);
            Ok(14)
        } else if op == 0x22 {
            bus.write(nn, low_byte(ix));
            bus.write(wadd(nn, 1), high_byte(ix));
            self.pc = self.at(4);
            Ok(20)
        } else if op == 0x2a {
            let v = join(bus.read(wadd(nn, 1)), bus.read(nn));
            self.pc = self.at(4);
            self.set_index(prefix, v);
            Ok(20)
        } else if op == 0x23 {
            self.pc = self.at(2);
            self.set_index(prefix, wadd(ix, 1));
            Ok(10)
        } else if op == 0x2b {
            self.pc = self.at(2);
            self.set_index(prefix, wsub(ix, 1));
            Ok(10)
        } else if x == 0 && z == 1 && q == 1 {
            let v = if p == 2 {
                ix
            } else {
                self.read_rp(p)
            };
            let (r, f) = add16_exec(ix, v, self.f);
            self.f = f;
            self.pc = self.at(2);
            self.set_index(prefix, r);
            Ok(15)
        } else if op == 0x34 || op == 0x35 {
            let old_v = bus.read(ea);
            let (v, f) = if op == 0x34 {
                inc8_exec(old_v, self.f)
            } else {
                dec8_exec(old_v, self.f)
            };
            self.f = f;
            self.pc = self.at(3);
            bus.write(ea, v);
            Ok(23)
        } else if op == 0x36 {
            let n = bus.read(self.at(3));
            self.pc = self.at(4);
            bus.write(ea, n);
            Ok(19)
        } else if x == 1 && z == 6 && y != 6 {
            let v = bus.read(ea);
            self.pc = self.at(3);
            self.write_reg(bus, y, v);
            Ok(19)
        } else if x == 1 && y == 6 && z != 6 {
            let v = self.read_reg(bus, z);
            self.pc = self.at(3);
            bus.write(ea, v);
            Ok(19)
        } else if x == 2 && z == 6 {
            let (a, f) = alu8_exec(y, self.a, bus.read(ea), self.f);
            self.a = a;
            self.f = f;
            self.pc = self.at(3);
            Ok(19)
        } else if op == 0xe1 {
            let next = self.at(2);
            let v = self.pop(bus);
            self.pc = next;
            self.set_index(prefix, v);
            Ok(14)
        } else if op == 0xe5 {
            self.pc = self.at(2);
            self.push(bus, ix);
            Ok(15)
        } else if op == 0xe3 {
            let sp1 = wadd(self.sp, 1);
            let lo = bus.read(self.sp);
            let hi = bus.read(sp1);
            bus.write(self.sp, low_byte(ix));
            bus.write(sp1, high_byte(ix));
            self.pc = self.at(2);
            self.set_index(prefix, join(hi, lo));
            Ok(23)
        } else if op == 0xe9 {
            self.pc = ix;
            Ok(8)
        } else if op == 0xf9 {
            self.sp = ix;
            self.pc = self.at(2);
            Ok(10)
        } else if op == 0xcb {
            self.exec_indexed_bits(bus, prefix)
        } else {
            Err(DecodeError { address: self.pc, prefix: prefix, opcode: op })
        }
    }
}

impl Z80 {
    fn exec_block_compare(&mut self, bus: &MemoryBus, y: u8) -> (c: u32)
        requires
            bus.wf(),
        ensures
            (*final(self), bus@, c) == exec_block_compare(*old(self), bus@, y),
    {
        let hl = self.hl();
        let v = bus.read(hl);
        let up = y % 2 == 0;
        let hl1 = if up {
            wadd(hl, 1)
        } else {
            wsub(hl, 1)
        };
        let bc1 = wsub(self.bc(), 1);
        let (r, sf) = sub8_exec(self.a, v, false, false);
        let h = sf / 0x10 % 2 == 1;
        let n: u16 = (r as u16 + 0x100 - if h {
            1
        } else {
            0
        }) % 0x100;
        self.f = make_flags(
            r >= 0x80,
            r == 0,
            h,
            bc1 != 0,
            true,
            self.f % 2 == 1,
            (n / 2 % 2 * 0x20 + n / 8 % 2 * 0x08) as u8,
        );
        let repeat = y >= 6 && bc1 != 0 && r != 0;
        if !repeat {
            self.pc = self.at(2);
        }
        self.write_rp(0, bc1);
        self.write_rp(2, hl1);
        if repeat {
            21
        } else {
            16
        }
    }

    fn exec_digit_rotate(&mut self, bus: &mut MemoryBus, y: u8) -> (c: u32)
        requires
            old(bus).wf(),
        ensures
            final(bus).wf(),
            (*final(self), final(bus)@, c) == exec_digit_rotate(*old(self), old(bus)@, y),
    {
        let hl = self.hl();
        let v = bus.read(hl);
        let a = self.a;
        let (na, nv) = if y == 4 {
            (a / 16 * 16 + v % 16, a % 16 * 16 + v / 16)
        } else {
            (a / 16 * 16 + v / 16, v % 16 * 16 + a % 16)
        };
        self.a = na;
        self.f = make_flags(
            na >= 0x80,
            na == 0,
            false,
            is_even_parity(na),
            false,
            self.f % 2 == 1,
            na,
        );
        self.pc = self.at(2);
        bus.write(hl, nv);
        18
    }
}

} // verus!
