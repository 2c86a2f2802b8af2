//! Arithmetic laws of the 6502 ALU as implemented in [`crate::cpu`].

use vstd::prelude::*;
use crate::cpu::{adc_spec, cmp_spec, nz, sbc_spec, sub8, FLAG_C, FLAG_D, FLAG_I, FLAG_N, FLAG_V, FLAG_Z};

verus! {

/// A byte holding two valid BCD digits.
pub open spec fn bcd_valid(x: u8) -> bool {
    (x & 0x0F) <= 9 && (x >> 4u8) <= 9
}

/// The decimal value of a BCD byte.
pub open spec fn bcd_value(x: u8) -> int {
    (x >> 4u8) * 10 + (x & 0x0F)
}

/// The carry flag as a number.
pub open spec fn carry_in(ps: u8) -> int {
    if ps & FLAG_C != 0 { 1 } else { 0 }
}

proof fn lemma_flag_bits(ps: u8, c: bool, z: bool, n: bool, v: bool)
    ensures
        ({
            let r = (ps & !(FLAG_N | FLAG_V | FLAG_Z | FLAG_C)) | (if c { FLAG_C } else { 0u8 }) | (if z {
                FLAG_Z
            } else {
                0u8
            }) | (if n { FLAG_N } else { 0u8 }) | (if v { FLAG_V } else { 0u8 });
            &&& (r & FLAG_C != 0) == c
            &&& (r & FLAG_Z != 0) == z
            &&& (r & FLAG_N != 0) == n
            &&& (r & FLAG_V != 0) == v
            &&& (r & FLAG_D) == (ps & FLAG_D)
            &&& (r & FLAG_I) == (ps & FLAG_I)
        }),
{
    let cc: u8 = if c { 1 } else { 0 };
    let zz: u8 = if z { 2 } else { 0 };
    let nn: u8 = if n { 0x80 } else { 0 };
    let vv: u8 = if v { 0x40 } else { 0 };
    let r = (ps & !(0x80u8 | 0x40u8 | 0x02u8 | 0x01u8)) | cc | zz | nn | vv;
    assert((r & 1 != 0) == (cc != 0) && (r & 2 != 0) == (zz != 0) && (r & 0x80 != 0) == (nn != 0)
        && (r & 0x40 != 0) == (vv != 0) && (r & 8) == (ps & 8) && (r & 4) == (ps & 4)) by (bit_vector)
        requires
            r == (ps & !(0x80u8 | 0x40u8 | 0x02u8 | 0x01u8)) | cc | zz | nn | vv,
            cc == 0 || cc == 1,
            zz == 0 || zz == 2,
            nn == 0 || nn == 0x80,
            vv == 0 || vv == 0x40,
    ;
}

/// Binary ADC adds the operand and the carry modulo 256; the carry flag
/// reports an unsigned overflow and Z/N describe the result.  The D and I
/// flags are left alone.
pub proof fn law_adc_binary(a: u8, m: u8, ps: u8)
    requires
        ps & FLAG_D == 0,
    ensures
        adc_spec(a, m, ps).0 == (a + m + carry_in(ps)) % 256,
        (adc_spec(a, m, ps).1 & FLAG_C != 0) == (a + m + carry_in(ps) > 255),
        (adc_spec(a, m, ps).1 & FLAG_Z != 0) == (adc_spec(a, m, ps).0 == 0),
        (adc_spec(a, m, ps).1 & FLAG_N != 0) == (adc_spec(a, m, ps).0 >= 0x80),
        adc_spec(a, m, ps).1 & FLAG_D == 0,
        adc_spec(a, m, ps).1 & FLAG_I == ps & FLAG_I,
{
    let c = ps & FLAG_C;
    assert(c == 0 || c == 1) by (bit_vector)
        requires
            c == ps & 1,
    ;
    assert((c != 0) == (ps & FLAG_C != 0));
    let sum = a + m + c;
    let result = (sum % 256) as u8;
    let overflow = (!(a ^ m) & (a ^ result) & 0x80) != 0;
    lemma_flag_bits(ps, sum > 0xFF, result == 0, result & 0x80 != 0, overflow);
    assert((result & 0x80 != 0) == (result >= 0x80)) by (bit_vector);
}

/// Binary SBC subtracts the operand and the borrow (inverted carry) modulo
/// 256; the carry flag is set exactly when no borrow occurred.
pub proof fn law_sbc_binary(a: u8, m: u8, ps: u8)
    requires
        ps & FLAG_D == 0,
    ensures
        sbc_spec(a, m, ps).0 == (a - m - (1 - carry_in(ps)) + 256) % 256,
        (sbc_spec(a, m, ps).1 & FLAG_C != 0) == (a - m - (1 - carry_in(ps)) >= 0),
        (sbc_spec(a, m, ps).1 & FLAG_Z != 0) == (sbc_spec(a, m, ps).0 == 0),
        (sbc_spec(a, m, ps).1 & FLAG_N != 0) == (sbc_spec(a, m, ps).0 >= 0x80),
{
    let borrow: u8 = if ps & FLAG_C != 0 { 0u8 } else { 1u8 };
    let raw: int = a - m - borrow;
    let result = ((raw + 256) % 256) as u8;
    let overflow = ((a ^ m) & (a ^ result) & 0x80) != 0;
    lemma_flag_bits(ps, raw >= 0, result == 0, result & 0x80 != 0, overflow);
    assert((result & 0x80 != 0) == (result >= 0x80)) by (bit_vector);
}

proof fn lemma_adc_bcd_bits(a: u8, m: u8, c: u8)
    requires
        c <= 1,
        (a & 0x0F) <= 9,
        (a >> 4u8) <= 9,
        (m & 0x0F) <= 9,
        (m >> 4u8) <= 9,
    ensures
        ({
            let lo0 = ((a & 0x0F) + (m & 0x0F) + c) as u8;
            let lo: u8 = if lo0 > 9 { (lo0 + 6) as u8 } else { lo0 };
            let hi0 = ((a >> 4u8) + (m >> 4u8) + (if lo > 0x0F { 1u8 } else { 0u8 })) as u8;
            let hi: u8 = if hi0 > 9 { (hi0 + 6) as u8 } else { hi0 };
            let r: u8 = (lo & 0x0F) | (hi << 4u8);
            let sum = ((a >> 4u8) * 10 + (a & 0x0F)) + ((m >> 4u8) * 10 + (m & 0x0F)) + c;
            &&& (r & 0x0F) <= 9
            &&& (r >> 4u8) <= 9
            &&& (r >> 4u8) * 10 + (r & 0x0F) == sum % 100
            &&& (hi > 0x0F) == (sum >= 100)
        }),
{
    assert({
        let lo0 = ((a & 0x0F) + (m & 0x0F) + c) as u8;
        let lo: u8 = if lo0 > 9 { (lo0 + 6) as u8 } else { lo0 };
        let hi0 = ((a >> 4u8) + (m >> 4u8) + (if lo > 0x0F { 1u8 } else { 0u8 })) as u8;
        let hi: u8 = if hi0 > 9 { (hi0 + 6) as u8 } else { hi0 };
        let r: u8 = (lo & 0x0F) | (hi << 4u8);
        let sum = ((a >> 4u8) * 10 + (a & 0x0F)) + ((m >> 4u8) * 10 + (m & 0x0F)) + c;
        &&& (r & 0x0F) <= 9
        &&& (r >> 4u8) <= 9
        &&& (r >> 4u8) * 10 + (r & 0x0F) == sum % 100
        &&& (hi > 0x0F) == (sum >= 100)
    }) by (bit_vector)
        requires
            c <= 1,
            (a & 0x0F) <= 9,
            (a >> 4u8) <= 9,
            (m & 0x0F) <= 9,
            (m >> 4u8) <= 9,
    ;
}

/// Decimal-mode ADC adds two BCD numbers and the carry: the result is the
/// BCD encoding of the decimal sum modulo 100, and the carry flag reports
/// whether the decimal sum reached 100.
pub proof fn law_adc_decimal(a: u8, m: u8, ps: u8)
    requires
        ps & FLAG_D != 0,
        bcd_valid(a),
        bcd_valid(m),
    ensures
        bcd_valid(adc_spec(a, m, ps).0),
        bcd_value(adc_spec(a, m, ps).0) == (bcd_value(a) + bcd_value(m) + carry_in(ps)) % 100,
        (adc_spec(a, m, ps).1 & FLAG_C != 0) == (bcd_value(a) + bcd_value(m) + carry_in(ps) >= 100),
{
    let c = ps & FLAG_C;
    assert(c == 0 || c == 1) by (bit_vector)
        requires
            c == ps & 1,
    ;
    assert((c != 0) == (ps & FLAG_C != 0));
    lemma_adc_bcd_bits(a, m, c);
    let lo0 = ((a & 0x0F) + (m & 0x0F) + c) as u8;
    let lo: u8 = if lo0 > 9 { (lo0 + 6) as u8 } else { lo0 };
    let hi0 = ((a >> 4u8) + (m >> 4u8) + (if lo > 0x0F { 1u8 } else { 0u8 })) as u8;
    let hi: u8 = if hi0 > 9 { (hi0 + 6) as u8 } else { hi0 };
    let result: u8 = (lo & 0x0F) | (hi << 4u8);
    let overflow = (!((a ^ m) & 0x80) & ((a ^ (hi << 4u8)) & 0x80)) != 0;
    lemma_flag_bits(ps, hi > 0x0F, result == 0, result & 0x80 != 0, overflow);
}

proof fn lemma_sbc_bcd_bits(a: u8, m: u8, b: u8)
    requires
        b <= 1,
        (a & 0x0F) <= 9,
        (a >> 4u8) <= 9,
        (m & 0x0F) <= 9,
        (m >> 4u8) <= 9,
    ensures
        ({
            let lo0 = sub8(sub8(a & 0x0F, m & 0x0F), b);
            let lo: u8 = if lo0 & 0x10 != 0 { sub8(lo0, 6) } else { lo0 };
            let hi0 = sub8(sub8(a >> 4u8, m >> 4u8), if lo & 0x10 != 0 { 1u8 } else { 0u8 });
            let hi: u8 = if hi0 & 0x10 != 0 { sub8(hi0, 6) } else { hi0 };
            let r: u8 = (lo & 0x0F) | (hi << 4u8);
            let diff = ((a >> 4u8) * 10 + (a & 0x0F)) - ((m >> 4u8) * 10 + (m & 0x0F)) - b;
            &&& (r & 0x0F) <= 9
            &&& (r >> 4u8) <= 9
            &&& (r >> 4u8) * 10 + (r & 0x0F) == (diff + 100) % 100
            &&& (a - m - b >= 0) == (diff >= 0)
        }),
{
    assert({
        let lo0 = if (a & 0x0F) - (m & 0x0F) < 0 { ((a & 0x0F) - (m & 0x0F) + 0x100) as u8 } else { ((a & 0x0F) - (m & 0x0F)) as u8 };
        let lo1 = if lo0 - b < 0 { (lo0 - b + 0x100) as u8 } else { (lo0 - b) as u8 };
        let lo: u8 = if lo1 & 0x10 != 0 { if lo1 - 6u8 < 0 { (lo1 - 6u8 + 0x100) as u8 } else { (lo1 - 6u8) as u8 } } else { lo1 };
        let bb: u8 = if lo & 0x10 != 0 { 1u8 } else { 0u8 };
        let hi0 = if (a >> 4u8) - (m >> 4u8) < 0 { ((a >> 4u8) - (m >> 4u8) + 0x100) as u8 } else { ((a >> 4u8) - (m >> 4u8)) as u8 };
        let hi1 = if hi0 - bb < 0 { (hi0 - bb + 0x100) as u8 } else { (hi0 - bb) as u8 };
        let hi: u8 = if hi1 & 0x10 != 0 { if hi1 - 6u8 < 0 { (hi1 - 6u8 + 0x100) as u8 } else { (hi1 - 6u8) as u8 } } else { hi1 };
        let r: u8 = (lo & 0x0F) | (hi << 4u8);
        let diff = ((a >> 4u8) * 10 + (a & 0x0F)) - ((m >> 4u8) * 10 + (m & 0x0F)) - b;
        &&& (r & 0x0F) <= 9
        &&& (r >> 4u8) <= 9
        &&& (r >> 4u8) * 10 + (r & 0x0F) == (diff + 100) % 100
        &&& (a - m - b >= 0) == (diff >= 0)
    }) by (bit_vector)
        requires
            b <= 1,
            (a & 0x0F) <= 9,
            (a >> 4u8) <= 9,
            (m & 0x0F) <= 9,
            (m >> 4u8) <= 9,
    ;
}

/// Decimal-mode SBC subtracts two BCD numbers and the borrow: the result
/// is the BCD encoding of the decimal difference modulo 100, and the carry
/// flag is set exactly when no borrow occurred.
pub proof fn law_sbc_decimal(a: u8, m: u8, ps: u8)
    requires
        ps & FLAG_D != 0,
        bcd_valid(a),
        bcd_valid(m),
    ensures
        bcd_valid(sbc_spec(a, m, ps).0),
        bcd_value(sbc_spec(a, m, ps).0) == (bcd_value(a) - bcd_value(m) - (1 - carry_in(ps)) + 100) % 100,
        (sbc_spec(a, m, ps).1 & FLAG_C != 0) == (bcd_value(a) - bcd_value(m) - (1 - carry_in(ps)) >= 0),
{
    let borrow: u8 = if ps & FLAG_C != 0 { 0u8 } else { 1u8 };
    lemma_sbc_bcd_bits(a, m, borrow);
    let raw: int = a - m - borrow;
    let lo0 = sub8(sub8(a & 0x0F, m & 0x0F), borrow);
    let lo: u8 = if lo0 & 0x10 != 0 { sub8(lo0, 6) } else { lo0 };
    let hi0 = sub8(sub8(a >> 4u8, m >> 4u8), if lo & 0x10 != 0 { 1u8 } else { 0u8 });
    let hi: u8 = if hi0 & 0x10 != 0 { sub8(hi0, 6) } else { hi0 };
    let result: u8 = (lo & 0x0F) | (hi << 4u8);
    let overflow = ((a ^ m) & (a ^ result) & 0x80) != 0;
    lemma_flag_bits(ps, raw >= 0, result == 0, result & 0x80 != 0, overflow);
}

/// Comparison sets carry when the register is at least the operand, and
/// zero when they are equal.
pub proof fn law_compare(reg: u8, m: u8, ps: u8)
    ensures
        (cmp_spec(reg, m, ps) & FLAG_C != 0) == (reg >= m),
        (cmp_spec(reg, m, ps) & FLAG_Z != 0) == (reg == m),
        cmp_spec(reg, m, ps) & FLAG_D == ps & FLAG_D,
{
    let diff = sub8(reg, m);
    let nn: u8 = if diff & 0x80 != 0 { 0x80 } else { 0 };
    let zz: u8 = if diff == 0 { 2 } else { 0 };
    let cc: u8 = if reg >= m { 1 } else { 0 };
    let r = (ps & !(0x80u8 | 0x02u8 | 0x01u8)) | nn | zz | cc;
    assert((r & 1 != 0) == (cc != 0) && (r & 2 != 0) == (zz != 0) && (r & 8) == (ps & 8)) by (bit_vector)
        requires
            r == (ps & !(0x80u8 | 0x02u8 | 0x01u8)) | nn | zz | cc,
            cc == 0 || cc == 1,
            zz == 0 || zz == 2,
            nn == 0 || nn == 0x80,
    ;
}

/// N and Z after a load describe the loaded value.
pub proof fn law_nz(ps: u8, v: u8)
    ensures
        (nz(ps, v) & FLAG_Z != 0) == (v == 0),
        (nz(ps, v) & FLAG_N != 0) == (v >= 0x80),
        nz(ps, v) & FLAG_C == ps & FLAG_C,
        nz(ps, v) & FLAG_I == ps & FLAG_I,
{
    let nn: u8 = if v & 0x80 != 0 { 0x80 } else { 0 };
    let zz: u8 = if v == 0 { 2 } else { 0 };
    let r = (ps & !(0x80u8 | 0x02u8)) | nn | zz;
    assert((r & 2 != 0) == (zz != 0) && (r & 0x80 != 0) == (nn != 0) && (r & 1) == (ps & 1) && (r & 4) == (ps & 4)) by (bit_vector)
        requires
            r == (ps & !(0x80u8 | 0x02u8)) | nn | zz,
            zz == 0 || zz == 2,
            nn == 0 || nn == 0x80,
    ;
    assert((v & 0x80 != 0) == (v >= 0x80)) by (bit_vector);
}

} // verus!
