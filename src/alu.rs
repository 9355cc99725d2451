//! Arithmetic and logic of the processor, with the flag byte each operation
//! produces. Every flag byte is a pure function of the operands, the result
//! and, where an operation keeps some flags, the previous flag byte.
//!
//! Flag bits, high to low: sign, zero, bit 5 of the result, half-carry,
//! bit 3 of the result, parity/overflow, subtract, carry.
use vstd::prelude::*;

verus! {

pub const FLAG_C: u8 = 0x01;
pub const FLAG_N: u8 = 0x02;
pub const FLAG_PV: u8 = 0x04;
pub const FLAG_H: u8 = 0x10;
pub const FLAG_Z: u8 = 0x40;
pub const FLAG_S: u8 = 0x80;

pub open spec fn weight(b: bool, w: int) -> int {
    if b {
        w
    } else {
        0
    }
}

/// The flag byte with the six documented flags given, and bits 5 and 3 copied
/// from `xy`.
pub open spec fn flag_byte(s: bool, z: bool, h: bool, pv: bool, n: bool, c: bool, xy: u8) -> u8 {
    (weight(s, 0x80) + weight(z, 0x40) + (xy as int / 0x20 % 2) * 0x20 + weight(h, 0x10) + (
    xy as int / 0x08 % 2) * 0x08 + weight(pv, 0x04) + weight(n, 0x02) + weight(c, 0x01)) as u8
}

pub open spec fn sign_flag(f: u8) -> bool {
    f as int / 0x80 % 2 == 1
}

pub open spec fn zero_flag(f: u8) -> bool {
    f as int / 0x40 % 2 == 1
}

pub open spec fn half_flag(f: u8) -> bool {
    f as int / 0x10 % 2 == 1
}

pub open spec fn parity_flag(f: u8) -> bool {
    f as int / 0x04 % 2 == 1
}

pub open spec fn subtract_flag(f: u8) -> bool {
    f as int / 0x02 % 2 == 1
}

pub open spec fn carry_flag(f: u8) -> bool {
    f as int % 2 == 1
}

/// A byte read as a two's-complement number.
pub open spec fn signed(x: u8) -> int {
    if x < 0x80 {
        x as int
    } else {
        x as int - 0x100
    }
}

pub open spec fn fits_i8(v: int) -> bool {
    -0x80 <= v <= 0x7f
}

/// True when `x` has an even number of set bits.
pub open spec fn even_parity(x: u8) -> bool {
    (x as int % 2 + x as int / 2 % 2 + x as int / 4 % 2 + x as int / 8 % 2 + x as int / 16 % 2
        + x as int / 32 % 2 + x as int / 64 % 2 + x as int / 128 % 2) % 2 == 0
}

/// Sign, zero and parity of `r`, with half-carry and carry as given.
pub open spec fn szp_flags(r: u8, h: bool, c: bool) -> u8 {
    flag_byte(r >= 0x80, r == 0, h, even_parity(r), false, c, r)
}

/// `a + b + carry` on bytes: (result, flags).
pub open spec fn add8(a: u8, b: u8, carry: bool) -> (u8, u8) {
    let sum = a as int + b as int + weight(carry, 1);
    let r = (sum % 0x100) as u8;
    (
        r,
        flag_byte(
            r >= 0x80,
            r == 0,
            a as int % 16 + b as int % 16 + weight(carry, 1) > 15,
            !fits_i8(signed(a) + signed(b) + weight(carry, 1)),
            false,
            sum > 0xff,
            r,
        ),
    )
}

/// `a - b - borrow` on bytes: (result, flags). Bits 5 and 3 come from `xy`.
pub open spec fn sub8_xy(a: u8, b: u8, borrow: bool, xy: u8) -> (u8, u8) {
    let diff = a as int - b as int - weight(borrow, 1);
    let r = ((diff + 0x100) % 0x100) as u8;
    (
        r,
        flag_byte(
            r >= 0x80,
            r == 0,
            a as int % 16 - b as int % 16 - weight(borrow, 1) < 0,
            !fits_i8(signed(a) - signed(b) - weight(borrow, 1)),
            true,
            diff < 0,
            xy,
        ),
    )
}

pub open spec fn sub8(a: u8, b: u8, borrow: bool) -> (u8, u8) {
    sub8_xy(a, b, borrow, sub8_xy(a, b, borrow, 0).0)
}

/// The eight accumulator operations, selected by `op`: add, add with carry,
/// subtract, subtract with borrow, and, xor, or, compare. Returns the new
/// accumulator and flags; a compare keeps the accumulator and takes bits 5 and
/// 3 from the operand.
pub open spec fn alu8(op: u8, a: u8, b: u8, f: u8) -> (u8, u8) {
    if op == 0 {
        add8(a, b, false)
    } else if op == 1 {
        add8(a, b, carry_flag(f))
    } else if op == 2 {
        sub8(a, b, false)
    } else if op == 3 {
        sub8(a, b, carry_flag(f))
    } else if op == 4 {
        let r = a & b;
        (r, szp_flags(r, true, false))
    } else if op == 5 {
        let r = a ^ b;
        (r, szp_flags(r, false, false))
    } else if op == 6 {
        let r = a | b;
        (r, szp_flags(r, false, false))
    } else {
        (a, sub8_xy(a, b, false, b).1)
    }
}

/// Increment; the carry flag is kept.
pub open spec fn inc8(x: u8, f: u8) -> (u8, u8) {
    let r = ((x as int + 1) % 0x100) as u8;
    (r, flag_byte(r >= 0x80, r == 0, x as int % 16 == 15, x == 0x7f, false, carry_flag(f), r))
}

/// Decrement; the carry flag is kept.
pub open spec fn dec8(x: u8, f: u8) -> (u8, u8) {
    let r = ((x as int + 0xff) % 0x100) as u8;
    (r, flag_byte(r >= 0x80, r == 0, x as int % 16 == 0, x == 0x80, true, carry_flag(f), r))
}

/// The shift or rotation selected by `op` (rotate left circular, rotate right
/// circular, rotate left through carry, rotate right through carry, shift
/// left arithmetic, shift right arithmetic, shift left inserting one, shift
/// right logical): (result, carry out).
pub open spec fn shift8(op: u8, x: u8, carry_in: bool) -> (u8, bool) {
    let top = x >= 0x80;
    let low = x as int % 2 == 1;
    let dbl = x as int * 2 % 0x100;
    let half = x as int / 2;
    if op == 0 {
        ((dbl + weight(top, 1)) as u8, top)
    } else if op == 1 {
        ((half + weight(low, 0x80)) as u8, low)
    } else if op == 2 {
        ((dbl + weight(carry_in, 1)) as u8, top)
    } else if op == 3 {
        ((half + weight(carry_in, 0x80)) as u8, low)
    } else if op == 4 {
        (dbl as u8, top)
    } else if op == 5 {
        ((half + weight(top, 0x80)) as u8, low)
    } else if op == 6 {
        ((dbl + 1) as u8, top)
    } else {
        (half as u8, low)
    }
}

/// A prefixed shift or rotation: (result, flags).
pub open spec fn shift8_flags(op: u8, x: u8, f: u8) -> (u8, u8) {
    let (r, c) = shift8(op, x, carry_flag(f));
    (r, szp_flags(r, false, c))
}

/// The one-byte accumulator rotations, selected by `op` in `0..4`: sign, zero
/// and parity are kept.
pub open spec fn rotate_a(op: u8, a: u8, f: u8) -> (u8, u8) {
    let (r, c) = shift8(op, a, carry_flag(f));
    (r, flag_byte(sign_flag(f), zero_flag(f), false, parity_flag(f), false, c, r))
}

/// Whether bit `n` of `x` is set.
pub open spec fn bit_of(x: u8, n: u8) -> bool {
    (x >> n) & 1 == 1
}

/// Flags of testing bit `n` of `x`; carry kept.
pub open spec fn bit_test(n: u8, x: u8, f: u8) -> u8 {
    let set = bit_of(x, n);
    flag_byte(n == 7 && set, !set, true, !set, false, carry_flag(f), x)
}

/// Decimal adjustment of the accumulator after a BCD addition or subtraction.
pub open spec fn daa(a: u8, f: u8) -> (u8, u8) {
    let low_fix = half_flag(f) || a as int % 16 > 9;
    let high_fix = carry_flag(f) || a > 0x99;
    let diff = weight(low_fix, 0x06) + weight(high_fix, 0x60);
    let r = (if subtract_flag(f) {
        (a as int - diff + 0x100) % 0x100
    } else {
        (a as int + diff) % 0x100
    }) as u8;
    let h = if subtract_flag(f) {
        half_flag(f) && a as int % 16 < 6
    } else {
        a as int % 16 > 9
    };
    (r, flag_byte(r >= 0x80, r == 0, h, even_parity(r), subtract_flag(f), high_fix, r))
}

/// `hl + v` on words for the two-byte add: sign, zero and parity kept; bits 5
/// and 3 from the high byte of the result.
pub open spec fn add16(hl: u16, v: u16, f: u8) -> (u16, u8) {
    let sum = hl as int + v as int;
    let r = (sum % 0x10000) as u16;
    (
        r,
        flag_byte(
            sign_flag(f),
            zero_flag(f),
            hl as int % 0x1000 + v as int % 0x1000 > 0xfff,
            parity_flag(f),
            false,
            sum > 0xffff,
            (r as int / 0x100) as u8,
        ),
    )
}

pub open spec fn signed16(x: u16) -> int {
    if x < 0x8000 {
        x as int
    } else {
        x as int - 0x10000
    }
}

pub open spec fn fits_i16(v: int) -> bool {
    -0x8000 <= v <= 0x7fff
}

/// `hl + v + carry` on words, every flag set.
pub open spec fn adc16(hl: u16, v: u16, f: u8) -> (u16, u8) {
    let c = weight(carry_flag(f), 1);
    let sum = hl as int + v as int + c;
    let r = (sum % 0x10000) as u16;
    (
        r,
        flag_byte(
            r >= 0x8000,
            r == 0,
            hl as int % 0x1000 + v as int % 0x1000 + c > 0xfff,
            !fits_i16(signed16(hl) + signed16(v) + c),
            false,
            sum > 0xffff,
            (r as int / 0x100) as u8,
        ),
    )
}

/// `hl - v - carry` on words, every flag set.
pub open spec fn sbc16(hl: u16, v: u16, f: u8) -> (u16, u8) {
    let c = weight(carry_flag(f), 1);
    let diff = hl as int - v as int - c;
    let r = ((diff + 0x10000) % 0x10000) as u16;
    (
        r,
        flag_byte(
            r >= 0x8000,
            r == 0,
            hl as int % 0x1000 - v as int % 0x1000 - c < 0,
            !fits_i16(signed16(hl) - signed16(v) - c),
            true,
            diff < 0,
            (r as int / 0x100) as u8,
        ),
    )
}

/// Builds a flag byte.
pub fn make_flags(s: bool, z: bool, h: bool, pv: bool, n: bool, c: bool, xy: u8) -> (r: u8)
    ensures
        r == flag_byte(s, z, h, pv, n, c, xy),
{
    let mut f: u8 = (xy / 0x20 % 2) * 0x20 + (xy / 0x08 % 2) * 0x08;
    if s {
        f = f + 0x80;
    }
    if z {
        f = f + 0x40;
    }
    if h {
        f = f + 0x10;
    }
    if pv {
        f = f + 0x04;
    }
    if n {
        f = f + 0x02;
    }
    if c {
        f = f + 0x01;
    }
    f
}

pub fn is_even_parity(x: u8) -> (r: bool)
    ensures
        r == even_parity(x),
{
    (x % 2 + x / 2 % 2 + x / 4 % 2 + x / 8 % 2 + x / 16 % 2 + x / 32 % 2 + x / 64 % 2 + x / 128
        % 2) % 2 == 0
}

fn to_signed(x: u8) -> (r: i16)
    ensures
        r as int == signed(x),
{
    if x < 0x80 {
        x as i16
    } else {
        x as i16 - 0x100
    }
}

fn to_signed16(x: u16) -> (r: i32)
    ensures
        r as int == signed16(x),
{
    if x < 0x8000 {
        x as i32
    } else {
        x as i32 - 0x10000
    }
}

fn carry_in(f: u8) -> (r: bool)
    ensures
        r == carry_flag(f),
{
    f % 2 == 1
}

pub fn add8_exec(a: u8, b: u8, carry: bool) -> (r: (u8, u8))
    ensures
        r == add8(a, b, carry),
{
    let c: u16 = if carry {
        1
    } else {
        0
    };
    let sum: u16 = a as u16 + b as u16 + c;
    let r: u8 = (sum % 0x100) as u8;
    let v: i16 = to_signed(a) + to_signed(b) + c as i16;
    let f = make_flags(
        r >= 0x80,
        r == 0,
        (a % 16) as u16 + (b % 16) as u16 + c > 15,
        !(-0x80 <= v && v <= 0x7f),
        false,
        sum > 0xff,
        r,
    );
    (r, f)
}

pub fn sub8_exec(a: u8, b: u8, borrow: bool, compare: bool) -> (r: (u8, u8))
    ensures
        r == (if compare {
            sub8_xy(a, b, borrow, b)
        } else {
            sub8(a, b, borrow)
        }),
{
    let c: i16 = if borrow {
        1
    } else {
        0
    };
    let diff: i16 = a as i16 - b as i16 - c;
    let r: u8 = ((diff + 0x100) % 0x100) as u8;
    let v: i16 = to_signed(a) - to_signed(b) - c;
    let xy = if compare {
        b
    } else {
        r
    };
    let f = make_flags(
        r >= 0x80,
        r == 0,
        (a % 16) as i16 - (b % 16) as i16 - c < 0,
        !(-0x80 <= v && v <= 0x7f),
        true,
        diff < 0,
        xy,
    );
    (r, f)
}

fn szp_exec(r: u8, h: bool, c: bool) -> (f: u8)
    ensures
        f == szp_flags(r, h, c),
{
    make_flags(r >= 0x80, r == 0, h, is_even_parity(r), false, c, r)
}

pub fn alu8_exec(op: u8, a: u8, b: u8, f: u8) -> (r: (u8, u8))
    ensures
        r == alu8(op, a, b, f),
{
    if op == 0 {
        add8_exec(a, b, false)
    } else if op == 1 {
        add8_exec(a, b, carry_in(f))
    } else if op == 2 {
        sub8_exec(a, b, false, false)
    } else if op == 3 {
        sub8_exec(a, b, carry_in(f), false)
    } else if op == 4 {
        let r = a & b;
        (r, szp_exec(r, true, false))
    } else if op == 5 {
        let r = a ^ b;
        (r, szp_exec(r, false, false))
    } else if op == 6 {
        let r = a | b;
        (r, szp_exec(r, false, false))
    } else {
        (a, sub8_exec(a, b, false, true).1)
    }
}

pub fn inc8_exec(x: u8, f: u8) -> (r: (u8, u8))
    ensures
        r == inc8(x, f),
{
    let r: u8 = if x == 0xff {
        0
    } else {
        x + 1
    };
    (r, make_flags(r >= 0x80, r == 0, x % 16 == 15, x == 0x7f, false, carry_in(f), r))
}

pub fn dec8_exec(x: u8, f: u8) -> (r: (u8, u8))
    ensures
        r == dec8(x, f),
{
    let r: u8 = if x == 0 {
        0xff
    } else {
        x - 1
    };
    (r, make_flags(r >= 0x80, r == 0, x % 16 == 0, x == 0x80, true, carry_in(f), r))
}

pub fn shift8_exec(op: u8, x: u8, carry_in: bool) -> (r: (u8, bool))
    ensures
        r == shift8(op, x, carry_in),
{
    let top = x >= 0x80;
    let low = x % 2 == 1;
    let dbl: u8 = ((x as u16 * 2) % 0x100) as u8;
    let half: u8 = x / 2;
    if op == 0 {
        (dbl + if top {
            1
        } else {
            0
        }, top)
    } else if op == 1 {
        (half + if low {
            0x80
        } else {
            0
        }, low)
    } else if op == 2 {
        (dbl + if carry_in {
            1
        } else {
            0
        }, top)
    } else if op == 3 {
        (half + if carry_in {
            0x80
        } else {
            0
        }, low)
    } else if op == 4 {
        (dbl, top)
    } else if op == 5 {
        (half + if top {
            0x80
        } else {
            0
        }, low)
    } else if op == 6 {
        (dbl + 1, top)
    } else {
        (half, low)
    }
}

pub fn shift8_flags_exec(op: u8, x: u8, f: u8) -> (r: (u8, u8))
    ensures
        r == shift8_flags(op, x, f),
{
    let (r, c) = shift8_exec(op, x, carry_in(f));
    (r, szp_exec(r, false, c))
}

pub fn rotate_a_exec(op: u8, a: u8, f: u8) -> (r: (u8, u8))
    ensures
        r == rotate_a(op, a, f),
{
    let (r, c) = shift8_exec(op, a, carry_in(f));
    (r, make_flags(f / 0x80 % 2 == 1, f / 0x40 % 2 == 1, false, f / 0x04 % 2 == 1, false, c, r))
}

pub fn bit_test_exec(n: u8, x: u8, f: u8) -> (r: u8)
    requires
        n < 8,
    ensures
        r == bit_test(n, x, f),
{
    let set = (x >> n) & 1 == 1;
    make_flags(n == 7 && set, !set, true, !set, false, carry_in(f), x)
}

pub fn daa_exec(a: u8, f: u8) -> (r: (u8, u8))
    ensures
        r == daa(a, f),
{
    let sub = f / 0x02 % 2 == 1;
    let half = f / 0x10 % 2 == 1;
    let low_fix = half || a % 16 > 9;
    let high_fix = carry_in(f) || a > 0x99;
    let diff: u16 = (if low_fix {
        0x06
    } else {
        0
    }) + (if high_fix {
        0x60
    } else {
        0
    });
    let r: u8 = if sub {
        ((a as u16 + 0x100 - diff) % 0x100) as u8
    } else {
        ((a as u16 + diff) % 0x100) as u8
    };
    let h = if sub {
        half && a % 16 < 6
    } else {
        a % 16 > 9
    };
    (r, make_flags(r >= 0x80, r == 0, h, is_even_parity(r), sub, high_fix, r))
}

pub fn add16_exec(hl: u16, v: u16, f: u8) -> (r: (u16, u8))
    ensures
        r == add16(hl, v, f),
{
    let sum: u32 = hl as u32 + v as u32;
    let r: u16 = (sum % 0x10000) as u16;
    let flags = make_flags(
        f / 0x80 % 2 == 1,
        f / 0x40 % 2 == 1,
        hl % 0x1000 + v % 0x1000 > 0xfff,
        f / 0x04 % 2 == 1,
        false,
        sum > 0xffff,
        (r / 0x100) as u8,
    );
    (r, flags)
}

pub fn adc16_exec(hl: u16, v: u16, f: u8) -> (r: (u16, u8))
    ensures
        r == adc16(hl, v, f),
{
    let c: u32 = if carry_in(f) {
        1
    } else {
        0
    };
    let sum: u32 = hl as u32 + v as u32 + c;
    let r: u16 = (sum % 0x10000) as u16;
    let s: i32 = to_signed16(hl) + to_signed16(v) + c as i32;
    let flags = make_flags(
        r >= 0x8000,
        r == 0,
        (hl % 0x1000) as u32 + (v % 0x1000) as u32 + c > 0xfff,
        !(-0x8000 <= s && s <= 0x7fff),
        false,
        sum > 0xffff,
        (r / 0x100) as u8,
    );
    (r, flags)
}

pub fn sbc16_exec(hl: u16, v: u16, f: u8) -> (r: (u16, u8))
    ensures
        r == sbc16(hl, v, f),
{
    let c: i32 = if carry_in(f) {
        1
    } else {
        0
    };
    let diff: i32 = hl as i32 - v as i32 - c;
    let r: u16 = ((diff + 0x10000) % 0x10000) as u16;
    let s: i32 = to_signed16(hl) - to_signed16(v) - c;
    let flags = make_flags(
        r >= 0x8000,
        r == 0,
        (hl % 0x1000) as i32 - (v % 0x1000) as i32 - c < 0,
        !(-0x8000 <= s && s <= 0x7fff),
        true,
        diff < 0,
        (r / 0x100) as u8,
    );
    (r, flags)
}

} // verus!
