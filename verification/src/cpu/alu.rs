//! What the operations compute: arithmetic in binary and in decimal,
//! comparison, logic, shifts and counting, each with the flags it sets.

use super::m6502::M6502;
use vstd::arithmetic::div_mod::lemma_mod_multiples_vanish;
use vstd::prelude::*;

verus! {

/// The byte `value` read as a signed number in two's complement.
pub open spec fn signed(value: u8) -> int {
    if value >= 0x80 {
        value - 0x100
    } else {
        value as int
    }
}

/// The low eight bits of `n`: `n` modulo 256.
pub open spec fn low_byte(n: int) -> u8 {
    (n % 0x100) as u8
}

/// Whether `n` cannot be held by a signed byte.
pub open spec fn overflows(n: int) -> bool {
    n < -128 || n > 127
}

/// A carry or borrow bit as a number: one when set, zero when clear.
pub open spec fn bit(set: bool) -> int {
    if set {
        1
    } else {
        0
    }
}

/// What an addition or subtraction hands to the accumulator and to the
/// carry, overflow, zero and negative flags.
#[derive(Debug, Clone, Copy, PartialEq, Eq, Structural)]
pub struct Arith {
    pub value: u8,
    pub carry: bool,
    pub overflow: bool,
    pub zero: bool,
    pub negative: bool,
}

/// Binary addition of `a`, `m` and the carry. Carry is the ninth bit of the
/// sum, and overflow tells that the sum of the operands as signed numbers
/// left the signed range.
#[verifier::opaque]
pub open spec fn binary_add(a: u8, m: u8, carry: bool) -> Arith {
    let sum = a + m + bit(carry);
    Arith {
        value: low_byte(sum),
        carry: sum > 0xff,
        overflow: overflows(signed(a) + signed(m) + bit(carry)),
        zero: low_byte(sum) == 0,
        negative: low_byte(sum) >= 0x80,
    }
}

/// The byte `value` with its low four bits cleared: its high digit in place.
pub open spec fn high_digit(value: u8) -> u8 {
    (value - value % 16) as u8
}

/// The low digit of a decimal sum, with 16 added where it carries into the
/// high digit.
pub open spec fn decimal_low_sum(a: u8, m: u8, carry: bool) -> int {
    let low = a % 16 + m % 16 + bit(carry);
    if low >= 10 {
        (low + 6) % 16 + 16
    } else {
        low
    }
}

/// Decimal addition of `a`, `m` and the carry, each operand counting as two
/// decimal digits. Carry tells that the sum passed 99. Zero is that of the
/// binary sum, and negative and overflow are taken before the high digit is
/// corrected, as the chip does.
#[verifier::opaque]
pub open spec fn decimal_add(a: u8, m: u8, carry: bool) -> Arith {
    let low = decimal_low_sum(a, m, carry);
    let partial = high_digit(a) + high_digit(m) + low;
    let sum = if partial >= 0xa0 {
        partial + 0x60
    } else {
        partial
    };
    Arith {
        value: low_byte(sum),
        carry: sum > 0xff,
        overflow: overflows(signed(high_digit(a)) + signed(high_digit(m)) + low),
        zero: low_byte(a + m + bit(carry)) == 0,
        negative: low_byte(partial) >= 0x80,
    }
}

/// Binary subtraction of `m` and the borrow, which is the carry inverted,
/// from `a`. Carry is set when nothing had to be borrowed, and overflow
/// tells that the difference of the operands as signed numbers left the
/// signed range.
#[verifier::opaque]
pub open spec fn binary_sub(a: u8, m: u8, carry: bool) -> Arith {
    let difference = a - m - bit(!carry);
    Arith {
        value: low_byte(difference),
        carry: difference >= 0,
        overflow: overflows(signed(a) - signed(m) - bit(!carry)),
        zero: low_byte(difference) == 0,
        negative: low_byte(difference) >= 0x80,
    }
}

/// The difference of a decimal subtraction, negative where it borrows.
pub open spec fn decimal_difference(a: u8, m: u8, carry: bool) -> int {
    let low = a % 16 - m % 16 - bit(!carry);
    let low_fixed = if low < 0 {
        (low - 6) % 16 - 16
    } else {
        low
    };
    let partial = high_digit(a) - high_digit(m) + low_fixed;
    if partial < 0 {
        partial - 0x60
    } else {
        partial
    }
}

/// Decimal subtraction of `m` and the borrow from `a`. The value is the
/// decimal difference; the four flags are those of the binary subtraction.
#[verifier::opaque]
pub open spec fn decimal_sub(a: u8, m: u8, carry: bool) -> Arith {
    Arith { value: low_byte(decimal_difference(a, m, carry)), ..binary_sub(a, m, carry) }
}

/// With the low four bits of both operands cleared, and up to `0x1F` carried
/// in from the low digits, the signed sum leaves the signed range exactly
/// when both operands have the same sign and the low byte of the sum has the
/// other.
proof fn lemma_decimal_overflow(a: u8, m: u8, low: int)
    requires
        0 <= low <= 0x1f,
    ensures
        overflows(signed(high_digit(a)) + signed(high_digit(m)) + low) == ((a >= 0x80) == (m >= 0x80)
            && (low_byte(high_digit(a) + high_digit(m) + low) >= 0x80) != (a >= 0x80)),
{
    let ha = high_digit(a);
    let hm = high_digit(m);
    assert(ha == 16 * (a / 16));
    assert(hm == 16 * (m / 16));
    assert(ha >= 0x80 <==> a >= 0x80);
    assert(hm >= 0x80 <==> m >= 0x80);
    assert(a < 0x80 ==> ha <= 0x70);
    assert(m < 0x80 ==> hm <= 0x70);
    assert(ha <= 0xf0 && hm <= 0xf0);
    let sum = ha + hm + low;
    if sum >= 0x100 {
        assert(low_byte(sum) == sum - 0x100);
    } else {
        assert(low_byte(sum) == sum);
    }
}

/// Moving a number by a multiple of the modulus does not change what is left
/// of it.
proof fn lemma_same_remainder(x: int)
    ensures
        (x + 26) % 16 == (x - 6) % 16,
        (x + 0x200) % 0x100 == x % 0x100,
        (x + 0x100) % 0x100 == x % 0x100,
{
    lemma_mod_multiples_vanish(2, x - 6, 16);
    lemma_mod_multiples_vanish(2, x, 0x100);
    lemma_mod_multiples_vanish(1, x, 0x100);
}

/// Whether both digits of the byte are decimal digits.
pub open spec fn is_decimal(value: u8) -> bool {
    value / 16 <= 9 && value % 16 <= 9
}

/// The number from 0 to 99 that a byte of two decimal digits stands for.
pub open spec fn decimal_value(value: u8) -> int {
    (value / 16) * 10 + value % 16
}

/// On operands of decimal digits a decimal addition adds as on paper: the
/// result has decimal digits, and together with the carry, which counts a
/// hundred, it stands for the sum of the operands and the carry that came
/// in.
pub proof fn lemma_decimal_add_adds(a: u8, m: u8, carry: bool)
    requires
        is_decimal(a),
        is_decimal(m),
    ensures
        is_decimal(decimal_add(a, m, carry).value),
        decimal_value(decimal_add(a, m, carry).value) + 100 * bit(decimal_add(a, m, carry).carry)
            == decimal_value(a) + decimal_value(m) + bit(carry),
{
    reveal(decimal_add);
    let low = decimal_low_sum(a, m, carry);
    let partial = high_digit(a) + high_digit(m) + low;
    let sum = if partial >= 0xa0 {
        partial + 0x60
    } else {
        partial
    };
    let tens: int = a / 16 + m / 16 + low / 16;
    assert(high_digit(a) == 16 * (a / 16));
    assert(high_digit(m) == 16 * (m / 16));
    assert(low % 16 <= 9 && low / 16 <= 1);
    assert(partial == 16 * tens + low % 16);
    assert(partial >= 0xa0 <==> tens >= 10);
    if tens >= 10 {
        assert(sum == 0x100 + 16 * (tens - 10) + low % 16);
        assert(low_byte(sum) == 16 * (tens - 10) + low % 16);
        assert(low_byte(sum) / 16 == tens - 10);
        assert(low_byte(sum) % 16 == low % 16);
    } else {
        assert(low_byte(sum) == 16 * tens + low % 16);
        assert(low_byte(sum) / 16 == tens);
        assert(low_byte(sum) % 16 == low % 16);
    }
}

/// On operands of decimal digits a decimal subtraction subtracts as on
/// paper: the result has decimal digits, and less a hundred where the
/// subtraction borrowed, which the cleared carry tells, it stands for the
/// first operand less the second and the borrow that came in.
pub proof fn lemma_decimal_sub_subtracts(a: u8, m: u8, carry: bool)
    requires
        is_decimal(a),
        is_decimal(m),
    ensures
        is_decimal(decimal_sub(a, m, carry).value),
        decimal_value(decimal_sub(a, m, carry).value) - 100 * bit(!decimal_sub(a, m, carry).carry)
            == decimal_value(a) - decimal_value(m) - bit(!carry),
{
    reveal(decimal_sub);
    reveal(binary_sub);
    let low = a % 16 - m % 16 - bit(!carry);
    let low_fixed = if low < 0 {
        (low - 6) % 16 - 16
    } else {
        low
    };
    let ones: int = if low < 0 {
        low + 10
    } else {
        low
    };
    let borrowed: int = if low < 0 {
        1
    } else {
        0
    };
    assert(low_fixed == ones - 16 * borrowed) by {
        if low < 0 {
            lemma_mod_multiples_vanish(-2, low + 26, 16);
        }
    }
    let tens: int = a / 16 - m / 16 - borrowed;
    assert(high_digit(a) == 16 * (a / 16));
    assert(high_digit(m) == 16 * (m / 16));
    let partial = high_digit(a) - high_digit(m) + low_fixed;
    assert(partial == 16 * tens + ones);
    assert(partial < 0 <==> tens < 0);
    let full = decimal_difference(a, m, carry);
    let difference = a - m - bit(!carry);
    assert(difference == 16 * (a / 16 - m / 16) + (a % 16 - m % 16 - bit(!carry)));
    assert(difference >= 0 <==> tens >= 0);
    if tens < 0 {
        assert(full == 16 * (tens + 10) + ones - 0x100);
        lemma_mod_multiples_vanish(-1, 16 * (tens + 10) + ones, 0x100);
        assert(low_byte(full) == 16 * (tens + 10) + ones);
        assert(low_byte(full) / 16 == tens + 10);
        assert(low_byte(full) % 16 == ones);
    } else {
        assert(low_byte(full) == 16 * tens + ones);
        assert(low_byte(full) / 16 == tens);
        assert(low_byte(full) % 16 == ones);
    }
}

/// Adds in binary.
pub fn add_binary(a: u8, m: u8, carry: bool) -> (r: Arith)
    ensures
        r == binary_add(a, m, carry),
{
    proof {
        reveal(binary_add);
    }
    let sum: u16 = a as u16 + m as u16 + if carry {
        1
    } else {
        0
    };
    let value: u8 = (sum % 0x100) as u8;
    Arith {
        value,
        carry: sum > 0xff,
        overflow: (a >= 0x80) == (m >= 0x80) && (value >= 0x80) != (a >= 0x80),
        zero: value == 0,
        negative: value >= 0x80,
    }
}

/// Adds in decimal.
pub fn add_decimal(a: u8, m: u8, carry: bool) -> (r: Arith)
    ensures
        r == decimal_add(a, m, carry),
{
    proof {
        reveal(decimal_add);
    }
    let carry_in: u16 = if carry {
        1
    } else {
        0
    };
    let binary: u16 = a as u16 + m as u16 + carry_in;
    let mut low: u16 = (a % 16) as u16 + (m % 16) as u16 + carry_in;
    if low >= 10 {
        low = (low + 6) % 16 + 16;
    }
    let partial: u16 = (a - a % 16) as u16 + (m - m % 16) as u16 + low;
    proof {
        assert(low == decimal_low_sum(a, m, carry));
        assert(partial == high_digit(a) + high_digit(m) + low);
        lemma_decimal_overflow(a, m, low as int);
    }
    let sum: u16 = if partial >= 0xa0 {
        partial + 0x60
    } else {
        partial
    };
    let negative: bool = partial % 0x100 >= 0x80;
    Arith {
        value: (sum % 0x100) as u8,
        carry: sum > 0xff,
        overflow: (a >= 0x80) == (m >= 0x80) && negative != (a >= 0x80),
        zero: binary % 0x100 == 0,
        negative,
    }
}

/// Subtracts in binary.
pub fn sub_binary(a: u8, m: u8, carry: bool) -> (r: Arith)
    ensures
        r == binary_sub(a, m, carry),
{
    proof {
        reveal(binary_sub);
    }
    let borrow: i16 = if carry {
        0
    } else {
        1
    };
    let difference: i16 = a as i16 - m as i16 - borrow;
    let value: u8 = ((difference + 0x100) % 0x100) as u8;
    Arith {
        value,
        carry: difference >= 0,
        overflow: (a >= 0x80) != (m >= 0x80) && (value >= 0x80) != (a >= 0x80),
        zero: value == 0,
        negative: value >= 0x80,
    }
}

/// Subtracts in decimal.
pub fn sub_decimal(a: u8, m: u8, carry: bool) -> (r: Arith)
    ensures
        r == decimal_sub(a, m, carry),
{
    proof {
        reveal(decimal_sub);
        reveal(binary_sub);
    }
    let borrow: i16 = if carry {
        0
    } else {
        1
    };
    let mut low: i16 = (a % 16) as i16 - (m % 16) as i16 - borrow;
    if low < 0 {
        proof {
            lemma_same_remainder(low as int);
        }
        low = (low + 26) % 16 - 16;
    }
    let mut full: i16 = (a - a % 16) as i16 - (m - m % 16) as i16 + low;
    if full < 0 {
        full = full - 0x60;
    }
    proof {
        assert(full == decimal_difference(a, m, carry));
        lemma_same_remainder(full as int);
    }
    let flags = sub_binary(a, m, carry);
    Arith {
        value: ((full + 0x200) % 0x100) as u8,
        carry: flags.carry,
        overflow: flags.overflow,
        zero: flags.zero,
        negative: flags.negative,
    }
}

impl M6502 {
    /// The carry flag as a number: one when set, zero when clear.
    pub open spec fn carry(self) -> int {
        bit(self.flag_c())
    }

    /// This state with the zero and negative flags telling of `value`: zero
    /// set when it is zero, negative set when its bit 7 is set.
    pub open spec fn with_nz(self, value: u8) -> M6502 {
        self.with_flag(Self::FLAG_Z, value == 0).with_flag(Self::FLAG_N, value >= 0x80)
    }

    /// The state after a byte is loaded into the accumulator.
    pub open spec fn after_lda(self, m: u8) -> M6502 {
        M6502 { a: m, ..self }.with_nz(m)
    }

    /// The state after a byte is loaded into X.
    pub open spec fn after_ldx(self, m: u8) -> M6502 {
        M6502 { x: m, ..self }.with_nz(m)
    }

    /// The state after a byte is loaded into Y.
    pub open spec fn after_ldy(self, m: u8) -> M6502 {
        M6502 { y: m, ..self }.with_nz(m)
    }

    /// The state after the stack pointer takes a new value. No flag changes.
    pub open spec fn after_txs(self) -> M6502 {
        M6502 { sp: self.x, ..self }
    }

    /// The state after AND with `m`.
    pub open spec fn after_and(self, m: u8) -> M6502 {
        self.after_lda(self.a & m)
    }

    /// The state after OR with `m`.
    pub open spec fn after_ora(self, m: u8) -> M6502 {
        self.after_lda(self.a | m)
    }

    /// The state after exclusive OR with `m`.
    pub open spec fn after_eor(self, m: u8) -> M6502 {
        self.after_lda(self.a ^ m)
    }

    /// This state with the accumulator and the four arithmetic flags taken
    /// from `r`.
    pub open spec fn with_arith(self, r: Arith) -> M6502 {
        M6502 { a: r.value, ..self }.with_flag(Self::FLAG_C, r.carry).with_flag(
            Self::FLAG_V,
            r.overflow,
        ).with_flag(Self::FLAG_Z, r.zero).with_flag(Self::FLAG_N, r.negative)
    }

    /// The state after `m` and the carry are added to the accumulator: in
    /// decimal when the decimal flag is set, else in binary.
    pub open spec fn after_adc(self, m: u8) -> M6502 {
        if self.flag_d() {
            self.with_arith(decimal_add(self.a, m, self.flag_c()))
        } else {
            self.with_arith(binary_add(self.a, m, self.flag_c()))
        }
    }

    /// The state after `m` and the borrow are subtracted from the
    /// accumulator: in decimal when the decimal flag is set, else in binary.
    pub open spec fn after_sbc(self, m: u8) -> M6502 {
        if self.flag_d() {
            self.with_arith(decimal_sub(self.a, m, self.flag_c()))
        } else {
            self.with_arith(binary_sub(self.a, m, self.flag_c()))
        }
    }

    /// The state after the register value `reg` is compared with `m`: carry
    /// is set when `reg` is not below `m`, zero when they are equal, and
    /// negative is bit 7 of their difference. No register changes.
    pub open spec fn after_compare(self, reg: u8, m: u8) -> M6502 {
        self.with_flag(Self::FLAG_C, reg >= m).with_nz(low_byte(reg - m))
    }

    /// The state after the bits of `m` are tested: zero tells that the
    /// accumulator and `m` share no bit, and negative and overflow are bits 7
    /// and 6 of `m`.
    pub open spec fn after_bit(self, m: u8) -> M6502 {
        self.with_flag(Self::FLAG_Z, self.a & m == 0).with_flag(Self::FLAG_N, m >= 0x80).with_flag(
            Self::FLAG_V,
            m & 0x40 != 0,
        )
    }

    /// The shifted byte and the state after `value` is shifted left: bit 7
    /// goes to the carry.
    pub open spec fn after_asl(self, value: u8) -> (u8, M6502) {
        let r = low_byte(value * 2);
        (r, self.with_flag(Self::FLAG_C, value >= 0x80).with_nz(r))
    }

    /// The shifted byte and the state after `value` is shifted right: bit 0
    /// goes to the carry.
    pub open spec fn after_lsr(self, value: u8) -> (u8, M6502) {
        let r = value / 2;
        (r, self.with_flag(Self::FLAG_C, value % 2 == 1).with_nz(r))
    }

    /// The rotated byte and the state after `value` is rotated left through
    /// the carry.
    pub open spec fn after_rol(self, value: u8) -> (u8, M6502) {
        let r = low_byte(value * 2 + self.carry());
        (r, self.with_flag(Self::FLAG_C, value >= 0x80).with_nz(r))
    }

    /// The rotated byte and the state after `value` is rotated right through
    /// the carry.
    pub open spec fn after_ror(self, value: u8) -> (u8, M6502) {
        let r = (value / 2 + 0x80 * self.carry()) as u8;
        (r, self.with_flag(Self::FLAG_C, value % 2 == 1).with_nz(r))
    }

    /// The byte that follows `value`, wrapping from `0xFF` to zero, and the
    /// state after it is computed.
    pub open spec fn after_inc(self, value: u8) -> (u8, M6502) {
        let r = low_byte(value + 1);
        (r, self.with_nz(r))
    }

    /// The byte before `value`, wrapping from zero to `0xFF`, and the state
    /// after it is computed.
    pub open spec fn after_dec(self, value: u8) -> (u8, M6502) {
        let r = low_byte(value - 1);
        (r, self.with_nz(r))
    }

    /// Sets the zero and negative flags from `value`.
    pub fn set_nz(&mut self, value: u8)
        ensures
            *final(self) == old(self).with_nz(value),
    {
        self.set_flag_z(value == 0);
        self.set_flag_n(value >= 0x80);
    }

    /// LDA: loads the accumulator.
    pub fn lda(&mut self, m: u8)
        ensures
            *final(self) == old(self).after_lda(m),
    {
        self.a = m;
        self.set_nz(m);
    }

    /// LDX: loads X.
    pub fn ldx(&mut self, m: u8)
        ensures
            *final(self) == old(self).after_ldx(m),
    {
        self.x = m;
        self.set_nz(m);
    }

    /// LDY: loads Y.
    pub fn ldy(&mut self, m: u8)
        ensures
            *final(self) == old(self).after_ldy(m),
    {
        self.y = m;
        self.set_nz(m);
    }

    /// AND: keeps the accumulator bits that `m` has too.
    pub fn and(&mut self, m: u8)
        ensures
            *final(self) == old(self).after_and(m),
    {
        self.lda(self.a & m);
    }

    /// ORA: adds the bits of `m` to the accumulator.
    pub fn ora(&mut self, m: u8)
        ensures
            *final(self) == old(self).after_ora(m),
    {
        self.lda(self.a | m);
    }

    /// EOR: flips the accumulator bits that `m` has.
    pub fn eor(&mut self, m: u8)
        ensures
            *final(self) == old(self).after_eor(m),
    {
        self.lda(self.a ^ m);
    }

    /// Hands the result of an addition or subtraction to the accumulator
    /// and the flags.
    pub fn set_arith(&mut self, r: Arith)
        ensures
            *final(self) == old(self).with_arith(r),
    {
        self.a = r.value;
        self.set_flag_c(r.carry);
        self.set_flag_v(r.overflow);
        self.set_flag_z(r.zero);
        self.set_flag_n(r.negative);
    }

    /// ADC: adds `m` and the carry to the accumulator, in binary or, with the
    /// decimal flag set, in decimal.
    pub fn adc(&mut self, m: u8)
        ensures
            *final(self) == old(self).after_adc(m),
    {
        let r = if self.flag_d() {
            add_decimal(self.a, m, self.flag_c())
        } else {
            add_binary(self.a, m, self.flag_c())
        };
        self.set_arith(r);
    }

    /// SBC: subtracts `m` and the borrow from the accumulator, in binary or,
    /// with the decimal flag set, in decimal.
    pub fn sbc(&mut self, m: u8)
        ensures
            *final(self) == old(self).after_sbc(m),
    {
        let r = if self.flag_d() {
            sub_decimal(self.a, m, self.flag_c())
        } else {
            sub_binary(self.a, m, self.flag_c())
        };
        self.set_arith(r);
    }

    /// CMP, CPX, CPY: compares the register value `reg` with `m`. Only flags
    /// change.
    pub fn compare(&mut self, reg: u8, m: u8)
        ensures
            *final(self) == old(self).after_compare(reg, m),
    {
        self.set_flag_c(reg >= m);
        self.set_nz(reg.wrapping_sub(m));
    }

    /// BIT: tests the bits of `m` against the accumulator. Only flags change.
    pub fn bit(&mut self, m: u8)
        ensures
            *final(self) == old(self).after_bit(m),
    {
        self.set_flag_z(self.a & m == 0);
        self.set_flag_n(m >= 0x80);
        self.set_flag_v(m & 0x40 != 0);
    }

    /// ASL: shifts `value` left by one bit.
    pub fn asl(&mut self, value: u8) -> (r: u8)
        ensures
            (r, *final(self)) == old(self).after_asl(value),
    {
        let r: u8 = ((value as u16 * 2) % 0x100) as u8;
        self.set_flag_c(value >= 0x80);
        self.set_nz(r);
        r
    }

    /// LSR: shifts `value` right by one bit.
    pub fn lsr(&mut self, value: u8) -> (r: u8)
        ensures
            (r, *final(self)) == old(self).after_lsr(value),
    {
        let r: u8 = value / 2;
        self.set_flag_c(value % 2 == 1);
        self.set_nz(r);
        r
    }

    /// ROL: rotates `value` left by one bit through the carry.
    pub fn rol(&mut self, value: u8) -> (r: u8)
        ensures
            (r, *final(self)) == old(self).after_rol(value),
    {
        let carry: u16 = if self.flag_c() {
            1
        } else {
            0
        };
        let r: u8 = ((value as u16 * 2 + carry) % 0x100) as u8;
        self.set_flag_c(value >= 0x80);
        self.set_nz(r);
        r
    }

    /// ROR: rotates `value` right by one bit through the carry.
    pub fn ror(&mut self, value: u8) -> (r: u8)
        ensures
            (r, *final(self)) == old(self).after_ror(value),
    {
        let r: u8 = if self.flag_c() {
            value / 2 + 0x80
        } else {
            value / 2
        };
        self.set_flag_c(value % 2 == 1);
        self.set_nz(r);
        r
    }

    /// INC, INX, INY: computes the byte after `value`.
    pub fn inc(&mut self, value: u8) -> (r: u8)
        ensures
            (r, *final(self)) == old(self).after_inc(value),
    {
        let r: u8 = value.wrapping_add(1);
        self.set_nz(r);
        r
    }

    /// DEC, DEX, DEY: computes the byte before `value`.
    pub fn dec(&mut self, value: u8) -> (r: u8)
        ensures
            (r, *final(self)) == old(self).after_dec(value),
    {
        let r: u8 = value.wrapping_sub(1);
        self.set_nz(r);
        r
    }
}

} // verus!
