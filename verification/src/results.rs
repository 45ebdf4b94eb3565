//! What each key computes, stated arithmetically, over all inputs.
use vstd::prelude::*;
use crate::radix::{ascii_upper, digit_value, digits_value, group4, parse_u64_spec};
use crate::state::{lemma_cut_fits, Base, CalcModel, Op, WordSize};

verus! {

/// Cutting to a word is taking the remainder by two to the word's bits.
proof fn lemma_cut_is_mod(x: u64)
    by (bit_vector)
    ensures
        x & 0xFFu64 == x % 0x100u64,
        x & 0xFFFFu64 == x % 0x1_0000u64,
        x & 0xFFFF_FFFFu64 == x % 0x1_0000_0000u64,
        x & 0xFFFF_FFFF_FFFF_FFFFu64 == x,
{
}

/// A shift count cut to 32 bits leaves the same remainder by each word's bits.
proof fn lemma_shift_count(b: u64)
    by (bit_vector)
    ensures
        (b as u32) % 8u32 == ((b % 8u64) as u32),
        (b as u32) % 16u32 == ((b % 16u64) as u32),
        (b as u32) % 32u32 == ((b % 32u64) as u32),
        (b as u32) % 64u32 == ((b % 64u64) as u32),
{
}

/// The value cut to the word is its remainder by the word's modulus.
pub proof fn lemma_cut_value(x: u64, w: WordSize)
    ensures
        (x & w.mask_spec()) as int == (x as int) % w.modulus(),
{
    lemma_cut_is_mod(x);
}

/// Law: pressing `=` on a pending operation computes, with `a` the left
/// operand and `b` the value cut to the word, the sum, difference and product
/// modulo two to the word's bits; the quotient and the remainder of `a` by a
/// non-zero `b`, cut to the word; the bitwise and, or and exclusive or, cut
/// to the word; and `a` shifted left or right by `b` (taken as 32 bits)
/// modulo the word's bits, cut to the word. The operation is then done and a
/// new number is due.
pub proof fn law_equals_computes(m: CalcModel)
    requires
        !m.error,
        m.operator is Some,
    ensures
        ({
            let r = m.press_eq();
            let a = m.prev;
            let b = m.value & m.word.mask_spec();
            let md = m.word.modulus();
            let n = m.word.bits_spec();
            &&& r.operator is None
            &&& r.new_input
            &&& r.prev == m.prev
            &&& r.word == m.word
            &&& r.base == m.base
            &&& m.operator == Some(Op::Add) ==> r.value as int == (a + b) % md
            &&& m.operator == Some(Op::Sub) ==> r.value as int == (a - b) % md
            &&& m.operator == Some(Op::Mul) ==> r.value as int == (a * b) % md
            &&& m.operator == Some(Op::Div) && b != 0 ==> r.value as int == ((a / b) as int) % md
                && !r.error
            &&& m.operator == Some(Op::Mod) && b != 0 ==> r.value as int == ((a % b) as int) % md
                && !r.error
            &&& m.operator == Some(Op::Mod) && b != 0 ==> (a % b) < b && (a / b) * b + (a % b) == a
            &&& (m.operator == Some(Op::Div) || m.operator == Some(Op::Mod)) && b == 0 ==> r.error
                && r.value == m.value
            &&& m.operator == Some(Op::And) ==> r.value == (a & b) & m.word.mask_spec()
            &&& m.operator == Some(Op::Or) ==> r.value == (a | b) & m.word.mask_spec()
            &&& m.operator == Some(Op::Xor) ==> r.value == (a ^ b) & m.word.mask_spec()
            &&& m.operator == Some(Op::Lsh) ==> r.value == (a << ((b as u32) % n))
                & m.word.mask_spec()
            &&& m.operator == Some(Op::Rsh) ==> r.value == (a >> ((b as u32) % n))
                & m.word.mask_spec()
        }),
{
    let a = m.prev;
    let b = m.value & m.word.mask_spec();
    let md = m.word.modulus();
    lemma_cut_is_mod(m.value);
    lemma_shift_count(b);
    let r = m.press_eq();
    lemma_cut_fits(m.value, m.word);
    match m.operator.unwrap() {
        Op::Add => {
            let s = ((a as int + b as int) % 0x1_0000_0000_0000_0000) as u64;
            lemma_cut_is_mod(s);
            lemma_cut_value(s, m.word);
            assert(((a + b) % 0x1_0000_0000_0000_0000) % md == (a + b) % md) by {
                lemma_mod_mod(a + b, md);
            }
        },
        Op::Sub => {
            let s = ((a as int - b as int) % 0x1_0000_0000_0000_0000) as u64;
            lemma_cut_value(s, m.word);
            assert(((a - b) % 0x1_0000_0000_0000_0000) % md == (a - b) % md) by {
                lemma_mod_mod(a - b, md);
            }
        },
        Op::Mul => {
            let s = ((a as int * b as int) % 0x1_0000_0000_0000_0000) as u64;
            lemma_cut_value(s, m.word);
            assert(((a * b) % 0x1_0000_0000_0000_0000) % md == (a * b) % md) by {
                lemma_mod_mod(a * b, md);
            }
        },
        Op::Div => {
            if b != 0 {
                lemma_cut_value(a / b, m.word);
            }
        },
        Op::Mod => {
            if b != 0 {
                lemma_cut_value(a % b, m.word);
                assert(a == (a / b) * b + (a % b)) by (nonlinear_arith)
                    requires
                        b != 0,
                ;
            }
        },
        _ => {},
    }
}

/// Taking the remainder by two to the sixty-fourth and then by a word's
/// modulus is taking it by the word's modulus.
proof fn lemma_mod_mod(x: int, md: int)
    requires
        md == 0x100 || md == 0x1_0000 || md == 0x1_0000_0000 || md == 0x1_0000_0000_0000_0000,
    ensures
        (x % 0x1_0000_0000_0000_0000) % md == x % md,
{
    let k: int = if md == 0x100 {
        0x100_0000_0000_0000
    } else if md == 0x1_0000 {
        0x1_0000_0000_0000
    } else if md == 0x1_0000_0000 {
        0x1_0000_0000
    } else {
        1
    };
    assert(md * k == 0x1_0000_0000_0000_0000int);
    vstd::arithmetic::div_mod::lemma_mod_mod(x, md, k);
}


/// Law: pressing an operator while an operation is pending and its right
/// operand has been typed first completes the pending operation exactly as
/// `=` would, then takes the result as the new left operand; otherwise the
/// current value, cut to the word, becomes the left operand.
pub proof fn law_operator_chains(m: CalcModel, op: Op)
    requires
        !m.error,
    ensures
        m.operator is Some && !m.new_input ==> m.press_op(op) == (CalcModel {
            prev: m.press_eq().value & m.word.mask_spec(),
            operator: Some(op),
            new_input: true,
            ..m.press_eq()
        }),
        !(m.operator is Some && !m.new_input) ==> m.press_op(op) == (CalcModel {
            prev: m.value & m.word.mask_spec(),
            operator: Some(op),
            new_input: true,
            ..m
        }),
{
}

/// Law: typing a digit of the current base (either case) starts a new
/// number with that digit's value when a new number is due or the text is
/// a lone `0`; otherwise it appends the digit, so that the value becomes the
/// old text's value times the radix plus the digit, cut to the word, as long
/// as that fits in 64 bits. Either way the text is no longer new and base and
/// word stay.
pub proof fn law_typing_digits(m: CalcModel, c: char)
    requires
        !m.error,
        digit_value(ascii_upper(c), m.base.radix_spec() as nat) is Some,
    ensures
        ({
            let r = m.base.radix_spec() as int;
            let d = digit_value(ascii_upper(c), m.base.radix_spec() as nat).unwrap() as int;
            let t = m.input_digit(c);
            &&& !t.new_input
            &&& t.base == m.base
            &&& t.word == m.word
            &&& t.operator == m.operator
            &&& t.prev == m.prev
            &&& (m.new_input || m.input == seq!['0']) ==> t.input == seq![ascii_upper(c)]
                && t.value as int == d
            &&& !m.new_input && m.input != seq!['0'] ==> t.input == m.input.push(ascii_upper(c))
            &&& forall|v: u64|
                #![trigger parse_u64_spec(m.input, r as nat), v * r]
                !m.new_input && m.input != seq!['0'] && parse_u64_spec(m.input, r as nat) == Some(v)
                    && v * r + d <= u64::MAX ==> t.value == ((v * r + d) as u64)
                    & m.word.mask_spec()
        }),
{
    let r = m.base.radix_spec() as nat;
    let u = ascii_upper(c);
    let d = digit_value(u, r).unwrap();
    assert(seq![u].drop_last() =~= Seq::<char>::empty());
    assert(digits_value(Seq::<char>::empty(), r) == Some(0nat));
    assert(seq![u].last() == u);
    assert(0 * r + d == d);
    assert(digits_value(seq![u], r) == Some(d));
    lemma_cut_fits(d as u64, m.word);
    if !m.new_input && m.input != seq!['0'] {
        let s = m.input;
        let t = s.push(u);
        if s.len() > 0 && s[0] == '+' {
            assert(t.drop_first() =~= s.drop_first().push(u));
            assert(t.drop_first().drop_last() =~= s.drop_first());
        } else {
            assert(t.drop_last() =~= s);
        }
    }
}


/// Bits of a value and of its toggled, complemented value.
proof fn lemma_bit_facts(v: u64, pos: u32, i: u32)
    by (bit_vector)
    ensures
        i < 64u32 && i != pos && pos < 64u32 ==> ((v ^ (1u64 << pos)) >> i) & 1u64 == (v >> i) & 1u64,
        pos < 64u32 ==> ((v ^ (1u64 << pos)) >> pos) & 1u64 != (v >> pos) & 1u64,
        v <= 0xFFu64 ==> (0xFFu64 ^ v) & v == 0u64 && (0xFFu64 ^ v) | v == 0xFFu64,
        v <= 0xFFFFu64 ==> (0xFFFFu64 ^ v) & v == 0u64 && (0xFFFFu64 ^ v) | v == 0xFFFFu64,
        v <= 0xFFFF_FFFFu64 ==> (0xFFFF_FFFFu64 ^ v) & v == 0u64 && (0xFFFF_FFFFu64 ^ v) | v
            == 0xFFFF_FFFFu64,
        (0xFFFF_FFFF_FFFF_FFFFu64 ^ v) & v == 0u64 && (0xFFFF_FFFF_FFFF_FFFFu64 ^ v) | v
            == 0xFFFF_FFFF_FFFF_FFFFu64,
{
}

/// Law: negation gives the value that, added to the value cut to the word,
/// makes zero modulo two to the word's bits; complement gives the value that
/// shares no bit with the value cut to the word and together with it fills
/// the word; both start a new number.
pub proof fn law_negate_and_not_compute(m: CalcModel)
    ensures
        m.press_negate().value < m.word.modulus(),
        (m.press_negate().value + (m.value & m.word.mask_spec())) % m.word.modulus() == 0,
        m.press_not().value & (m.value & m.word.mask_spec()) == 0,
        m.press_not().value | (m.value & m.word.mask_spec()) == m.word.mask_spec(),
        m.press_negate().new_input && m.press_not().new_input,
{
    let c = m.value & m.word.mask_spec();
    lemma_cut_fits(m.value, m.word);
    lemma_bit_facts(c, 0, 0);
    let md = m.word.modulus();
    if c == 0 {
        assert((md - 0) % md == 0);
    } else {
        assert((md - c) % md == md - c);
    }
}

/// Law: toggling bit `pos` inside the word flips that bit and keeps every
/// other bit; a position outside the word changes nothing.
pub proof fn law_toggle_flips_one_bit(m: CalcModel, pos: u32, i: u32)
    ensures
        pos < m.word.bits_spec() && i < 64 && i != pos ==> (m.toggle_bit(pos).value >> i) & 1
            == (m.value >> i) & 1,
        pos < m.word.bits_spec() ==> (m.toggle_bit(pos).value >> pos) & 1 != (m.value >> pos) & 1,
        pos >= m.word.bits_spec() ==> m.toggle_bit(pos) == m,
{
    lemma_bit_facts(m.value, pos, i);
}


/// Law: a character that, upper-cased, is no digit of the base is ignored,
/// and so is a backspace while a new number is due or after an error.
pub proof fn law_ignored_input(m: CalcModel, c: char)
    ensures
        digit_value(ascii_upper(c), m.base.radix_spec() as nat) is None ==> m.input_digit(c) == m,
        m.new_input || m.error ==> m.press_back() == m,
{
}

/// Law: only hexadecimal and binary displays are grouped; decimal, octal and
/// the error text are shown as they are.
pub proof fn law_grouping_only_hex_and_binary(m: CalcModel)
    ensures
        m.error || m.base == Base::Dec || m.base == Base::Oct ==> m.display_grouped() == m.display(),
        !m.error && (m.base == Base::Hex || m.base == Base::Bin) ==> m.display_grouped() == group4(
            m.display(),
        ),
{
}

} // verus!
