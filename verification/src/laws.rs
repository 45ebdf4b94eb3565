//! What holds of the calculator across its operations.
use vstd::prelude::*;
use crate::radix::{
    ascii_upper, digit_char, digit_value, digits_of, digits_value, group4, has_no_lower,
    lemma_digits_of_value, lemma_digits_shape, lemma_format_parse_roundtrip, no_leading_zero,
    parse_i64_spec, parse_u64_spec, signed_text,
};
use crate::frontend::{dispatch_model, push_history, AppModel, EntryModel};
use crate::state::{
    error_text, lemma_cut_fits, op_result, signed_of, value_text, Base, CalcModel, Op, WordSize,
};

verus! {

/// One key press on the calculator.
pub enum Press {
    Digit(char),
    SetBase(Base),
    SetWord(WordSize),
    ToggleBit(u32),
    Operator(Op),
    Equals,
    ClearEntry,
    Clear,
    Back,
    Negate,
    Not,
    Rol,
    Ror,
}

impl CalcModel {
    /// The state after one key press.
    pub open spec fn step(self, p: Press) -> CalcModel {
        match p {
            Press::Digit(c) => self.input_digit(c),
            Press::SetBase(b) => self.set_base(b),
            Press::SetWord(w) => self.set_word(w),
            Press::ToggleBit(pos) => self.toggle_bit(pos),
            Press::Operator(op) => self.press_op(op),
            Press::Equals => self.press_eq(),
            Press::ClearEntry => self.press_ce(),
            Press::Clear => self.press_c(),
            Press::Back => self.press_back(),
            Press::Negate => self.press_negate(),
            Press::Not => self.press_not(),
            Press::Rol => self.press_rol(),
            Press::Ror => self.press_ror(),
        }
    }
}

/// Bit facts behind the laws, at every width.
proof fn lemma_word_bits(v: u64, pos: u32)
    by (bit_vector)
    ensures
        v <= 0xFFu64 && pos < 8u32 ==> v ^ (1u64 << pos) <= 0xFFu64,
        v <= 0xFFFFu64 && pos < 16u32 ==> v ^ (1u64 << pos) <= 0xFFFFu64,
        v <= 0xFFFF_FFFFu64 && pos < 32u32 ==> v ^ (1u64 << pos) <= 0xFFFF_FFFFu64,
        v <= 0xFFu64 ==> ((v << 1u32) & 0xFFu64) | (v >> 7u32) <= 0xFFu64,
        v <= 0xFFFFu64 ==> ((v << 1u32) & 0xFFFFu64) | (v >> 15u32) <= 0xFFFFu64,
        v <= 0xFFFF_FFFFu64 ==> ((v << 1u32) & 0xFFFF_FFFFu64) | (v >> 31u32) <= 0xFFFF_FFFFu64,
        v <= 0xFFu64 ==> (v >> 1u32) | ((v & 1u64) << 7u32) <= 0xFFu64,
        v <= 0xFFFFu64 ==> (v >> 1u32) | ((v & 1u64) << 15u32) <= 0xFFFFu64,
        v <= 0xFFFF_FFFFu64 ==> (v >> 1u32) | ((v & 1u64) << 31u32) <= 0xFFFF_FFFFu64,
        v <= 0xFFu64 ==> 0xFFu64 ^ v <= 0xFFu64,
        v <= 0xFFFFu64 ==> 0xFFFFu64 ^ v <= 0xFFFFu64,
        v <= 0xFFFF_FFFFu64 ==> 0xFFFF_FFFFu64 ^ v <= 0xFFFF_FFFFu64,
{
}

/// Law: every key press leaves the value within the word, so the value
/// never holds bits above the word's width.
pub proof fn law_value_stays_in_word(m: CalcModel, p: Press)
    requires
        m.wf(),
    ensures
        m.step(p).wf(),
{
    lemma_cut_fits(m.value, m.word);
    lemma_word_bits(m.value, 0);
    match p {
        Press::ToggleBit(pos) => {
            lemma_word_bits(m.value, pos);
        },
        Press::Digit(c) => {
            if let Some(v) = parse_u64_spec(m.input_after(ascii_upper(c)), m.base.radix_spec() as nat) {
                lemma_cut_fits(v, m.word);
            }
        },
        Press::Back => {
            if let Some(v) = parse_u64_spec(m.input_after_back(), m.base.radix_spec() as nat) {
                lemma_cut_fits(v, m.word);
            }
        },
        Press::SetWord(w) => {
            lemma_cut_fits(m.value, w);
        },
        Press::Operator(op) => {
            let a = m.apply();
            lemma_cut_fits(a.value, a.word);
            if let Some(op2) = m.operator {
                if let Some(v) = op_result(op2, m.prev, m.cur(), m.word) {
                    lemma_cut_fits(v, m.word);
                }
            }
        },
        Press::Equals => {
            if let Some(op2) = m.operator {
                if let Some(v) = op_result(op2, m.prev, m.cur(), m.word) {
                    lemma_cut_fits(v, m.word);
                }
            }
        },
        _ => {},
    }
}


/// Bit facts behind the inverse laws, at every width.
proof fn lemma_rotate_inverse(v: u64)
    by (bit_vector)
    ensures
        v <= 0xFFu64 ==> ((((v << 1u32) & 0xFFu64) | (v >> 7u32)) >> 1u32) | (((((v << 1u32) & 0xFFu64)
            | (v >> 7u32)) & 1u64) << 7u32) == v,
        v <= 0xFFFFu64 ==> ((((v << 1u32) & 0xFFFFu64) | (v >> 15u32)) >> 1u32) | (((((v << 1u32)
            & 0xFFFFu64) | (v >> 15u32)) & 1u64) << 15u32) == v,
        v <= 0xFFFF_FFFFu64 ==> ((((v << 1u32) & 0xFFFF_FFFFu64) | (v >> 31u32)) >> 1u32) | (((((v
            << 1u32) & 0xFFFF_FFFFu64) | (v >> 31u32)) & 1u64) << 31u32) == v,
        ((((v << 1u32) & 0xFFFF_FFFF_FFFF_FFFFu64) | (v >> 63u32)) >> 1u32) | (((((v << 1u32)
            & 0xFFFF_FFFF_FFFF_FFFFu64) | (v >> 63u32)) & 1u64) << 63u32) == v,
        v <= 0xFFu64 ==> ((((v >> 1u32) | ((v & 1u64) << 7u32)) << 1u32) & 0xFFu64) | (((v >> 1u32) | ((
        v & 1u64) << 7u32)) >> 7u32) == v,
        v <= 0xFFFFu64 ==> ((((v >> 1u32) | ((v & 1u64) << 15u32)) << 1u32) & 0xFFFFu64) | (((v
            >> 1u32) | ((v & 1u64) << 15u32)) >> 15u32) == v,
        v <= 0xFFFF_FFFFu64 ==> ((((v >> 1u32) | ((v & 1u64) << 31u32)) << 1u32) & 0xFFFF_FFFFu64) | (((
        v >> 1u32) | ((v & 1u64) << 31u32)) >> 31u32) == v,
        ((((v >> 1u32) | ((v & 1u64) << 63u32)) << 1u32) & 0xFFFF_FFFF_FFFF_FFFFu64) | (((v >> 1u32) | (
        (v & 1u64) << 63u32)) >> 63u32) == v,
        v <= 0xFFu64 ==> 0xFFu64 ^ (0xFFu64 ^ v) == v,
        v <= 0xFFFFu64 ==> 0xFFFFu64 ^ (0xFFFFu64 ^ v) == v,
        v <= 0xFFFF_FFFFu64 ==> 0xFFFF_FFFFu64 ^ (0xFFFF_FFFFu64 ^ v) == v,
        0xFFFF_FFFF_FFFF_FFFFu64 ^ (0xFFFF_FFFF_FFFF_FFFFu64 ^ v) == v,
{
}

/// Flipping the same bit twice restores it.
proof fn lemma_xor_twice(v: u64, b: u64)
    by (bit_vector)
    ensures
        (v ^ b) ^ b == v,
{
}

/// Law: rotating left then right by one bit, or right then left, gives back
/// the value, for a value within the word.
pub proof fn law_rotations_undo(m: CalcModel)
    requires
        m.wf(),
    ensures
        m.press_rol().press_ror().value == m.value,
        m.press_ror().press_rol().value == m.value,
{
    lemma_cut_fits(m.value, m.word);
    lemma_word_bits(m.value, 0);
    lemma_rotate_inverse(m.value);
    let l = m.press_rol();
    let r = m.press_ror();
    lemma_cut_fits(l.value, l.word);
    lemma_cut_fits(r.value, r.word);
}

/// Law: complementing twice, or negating twice, gives back the value, for a
/// value within the word.
pub proof fn law_not_and_negate_undo(m: CalcModel)
    requires
        m.wf(),
    ensures
        m.press_not().press_not().value == m.value,
        m.press_negate().press_negate().value == m.value,
{
    lemma_cut_fits(m.value, m.word);
    lemma_word_bits(m.value, 0);
    lemma_rotate_inverse(m.value);
    let n = m.press_not();
    lemma_cut_fits(n.value, n.word);
    let g = m.press_negate();
    let md = m.word.modulus();
    let v = m.value as int;
    assert(m.cur() == m.value);
    if v == 0 {
        assert((md - 0) % md == 0);
        assert(g.value == 0);
    } else {
        assert((md - v) % md == md - v);
        assert(g.value as int == md - v);
    }
    lemma_cut_fits(g.value, g.word);
    assert(g.cur() == g.value);
    if v == 0 {
        assert((md - 0) % md == 0);
    } else {
        assert((md - (md - v)) % md == v);
    }
}

/// Law: toggling the same bit twice gives back the value.
pub proof fn law_toggle_undo(m: CalcModel, pos: u32)
    ensures
        m.toggle_bit(pos).toggle_bit(pos).value == m.value,
{
    lemma_xor_twice(m.value, 1u64 << pos);
}


/// Law: after an error, typing, operators, `=` and backspace change nothing,
/// and no key but CE and C clears the error.
pub proof fn law_error_holds_until_cleared(m: CalcModel, p: Press)
    requires
        m.error,
    ensures
        p is Digit || p is Operator || p is Equals || p is Back ==> m.step(p) == m,
        !(p is ClearEntry) && !(p is Clear) ==> m.step(p).error,
        m.press_ce().error == false,
        m.press_c().error == false,
{
}

/// Law: C returns the calculator to its starting state, keeping only the
/// chosen base and word size.
pub proof fn law_clear_resets(m: CalcModel)
    ensures
        m.press_c() == (CalcModel { base: m.base, word: m.word, ..CalcModel::initial() }),
{
}

/// Law: dividing, or taking the remainder, by zero sets the error flag and
/// leaves the value as it was.
pub proof fn law_division_by_zero_errs(m: CalcModel)
    requires
        !m.error,
        m.operator == Some(Op::Div) || m.operator == Some(Op::Mod),
        m.cur() == 0,
    ensures
        m.press_eq().error,
        m.press_eq().value == m.value,
        m.press_eq().operator is None,
{
}

/// Law: changing the base changes how the value is shown, never the value.
pub proof fn law_base_keeps_value(m: CalcModel, b: Base)
    ensures
        m.set_base(b).value == m.value,
        m.set_base(b).word == m.word,
        m.set_base(b).display() == (if m.error {
            m.display()
        } else {
            value_text(m.value, b, m.word)
        }),
{
}

/// Law: the hexadecimal, octal and binary texts of the value read back, in
/// the same base, as the value cut to the word.
pub proof fn law_display_reads_back(m: CalcModel)
    requires
        !m.error,
        m.base != Base::Dec,
    ensures
        parse_u64_spec(m.display(), m.base.radix_spec() as nat) == Some(m.cur()),
{
    lemma_format_parse_roundtrip(m.cur(), m.base.radix_spec() as nat);
}

/// Law: the signed reading of the value lies in the word's signed range and
/// agrees with the unsigned value modulo two to the word's bits.
pub proof fn law_signed_agrees(m: CalcModel)
    ensures
        -m.word.half() <= m.signed() < m.word.half(),
        (m.signed() + m.word.modulus()) % m.word.modulus() == m.cur() as int,
{
    lemma_cut_fits(m.value, m.word);
}

/// `s` without its spaces.
pub open spec fn strip_spaces(s: Seq<char>) -> Seq<char> {
    s.filter(|c: char| c != ' ')
}

/// A text without spaces loses nothing when its spaces are taken out.
proof fn lemma_strip_no_spaces(s: Seq<char>)
    requires
        !s.contains(' '),
    ensures
        strip_spaces(s) == s,
    decreases s.len(),
{
    reveal(Seq::filter);
    if s.len() > 0 {
        let t = s.drop_last();
        assert(!t.contains(' ')) by {
            if t.contains(' ') {
                let k = choose|k: int| 0 <= k < t.len() && t[k] == ' ';
                assert(s[k] == ' ');
            }
        }
        lemma_strip_no_spaces(t);
        assert(s.last() != ' ') by {
            assert(s[s.len() - 1] == s.last());
        }
        assert(t.push(s.last()) =~= s);
    }
}

/// Law: taking the spaces out of a grouped text gives the text back, for a
/// text without spaces.
pub proof fn law_grouping_only_adds_spaces(s: Seq<char>)
    requires
        !s.contains(' '),
    ensures
        strip_spaces(group4(s)) == s,
    decreases s.len(),
{
    if s.len() <= 4 {
        lemma_strip_no_spaces(s);
    } else {
        let head = s.take(s.len() - 4);
        let tail = s.skip(s.len() - 4);
        assert(!head.contains(' ')) by {
            if head.contains(' ') {
                let k = choose|k: int| 0 <= k < head.len() && head[k] == ' ';
                assert(s[k] == ' ');
            }
        }
        assert(!tail.contains(' ')) by {
            if tail.contains(' ') {
                let k = choose|k: int| 0 <= k < tail.len() && tail[k] == ' ';
                assert(s[k + s.len() - 4] == ' ');
            }
        }
        law_grouping_only_adds_spaces(head);
        lemma_strip_no_spaces(tail);
        let pred = |c: char| c != ' ';
        Seq::filter_distributes_over_add(group4(head) + seq![' '], tail, pred);
        Seq::filter_distributes_over_add(group4(head), seq![' '], pred);
        assert(seq![' '].filter(pred) =~= Seq::<char>::empty()) by {
            reveal(Seq::filter);
            assert(seq![' '].drop_last() =~= Seq::<char>::empty());
            assert(Seq::<char>::empty().filter(pred) =~= Seq::<char>::empty());
            assert(!pred(' '));
        }
        assert(head + tail =~= s);
    }
}


/// The digits of a number hold no space.
proof fn lemma_digits_no_space(n: nat, radix: nat)
    requires
        2 <= radix <= 16,
    ensures
        !digits_of(n, radix).contains(' '),
    decreases n,
{
    if n < radix {
        assert(digits_of(n, radix) =~= seq![digit_char(n)]);
        assert(digits_of(n, radix)[0] != ' ');
    } else {
        assert(n / radix < n && n % radix < radix) by (nonlinear_arith)
            requires
                radix >= 2,
                n >= radix,
        ;
        lemma_digits_no_space(n / radix, radix);
        let t = digits_of(n / radix, radix);
        assert(digits_of(n, radix) =~= t.push(digit_char(n % radix)));
        assert(!t.push(digit_char(n % radix)).contains(' ')) by {
            if t.push(digit_char(n % radix)).contains(' ') {
                let k = choose|k: int|
                    0 <= k < t.len() + 1 && #[trigger] t.push(digit_char(n % radix))[k] == ' ';
                if k < t.len() {
                    assert(t[k] == ' ');
                }
            }
        }
    }
}

/// Law: the grouped display is the display with spaces added between groups,
/// and nothing else.
pub proof fn law_grouped_display_strips(m: CalcModel)
    ensures
        strip_spaces(m.display_grouped()) == m.display(),
{
    let d = m.display();
    if !m.error && (m.base == Base::Hex || m.base == Base::Bin) {
        let r: nat = if m.base == Base::Hex { 16 } else { 2 };
        lemma_digits_no_space(m.cur() as nat, r);
        law_grouping_only_adds_spaces(d);
    } else if m.error {
        assert(!error_text().contains(' ')) by {
            if error_text().contains(' ') {
                let k = choose|k: int| 0 <= k < 5 && error_text()[k] == ' ';
            }
        }
        lemma_strip_no_spaces(d);
    } else if m.base == Base::Oct {
        lemma_digits_no_space(m.cur() as nat, 8);
        lemma_strip_no_spaces(d);
    } else {
        let x = signed_of(m.cur(), m.word);
        let mag: nat = if x < 0 { (-x) as nat } else { x as nat };
        lemma_digits_no_space(mag, 10);
        assert(!signed_text(x).contains(' ')) by {
            if x < 0 {
                let t = seq!['-'] + digits_of(mag, 10);
                if t.contains(' ') {
                    let k = choose|k: int| 0 <= k < t.len() && t[k] == ' ';
                    if k > 0 {
                        assert(digits_of(mag, 10)[k - 1] == ' ');
                    }
                }
            }
        }
        lemma_strip_no_spaces(d);
    }
}


/// Law: the history never holds more than eight lines, whatever
/// button is pressed, and recording a line keeps the newest lines in order
/// with the new one last.
pub proof fn law_history_bounded(m: AppModel, a: Seq<char>, e: EntryModel)
    requires
        m.history.len() <= 8,
    ensures
        dispatch_model(m, a).history.len() <= 8,
        push_history(m.history, e).len() == if m.history.len() < 8 {
            m.history.len() + 1
        } else {
            8
        },
        push_history(m.history, e) == m.history.push(e).skip(
            m.history.len() + 1 - push_history(m.history, e).len(),
        ),
{
    assert(m.history.push(e).skip(0) =~= m.history.push(e));
    assert(m.history.push(e).drop_first() =~= m.history.push(e).skip(1));
}

/// Law: the panel toggles show or hide their panel and change nothing else;
/// pressing one twice restores the front panel.
pub proof fn law_toggles_only_toggle(m: AppModel)
    ensures
        dispatch_model(m, "TOGGLE_HISTORY"@) == (AppModel { show_history: !m.show_history, ..m }),
        dispatch_model(dispatch_model(m, "TOGGLE_HISTORY"@), "TOGGLE_HISTORY"@) == m,
        dispatch_model(dispatch_model(m, "TOGGLE_BITS"@), "TOGGLE_BITS"@) == m,
        dispatch_model(dispatch_model(m, "TOGGLE_BITWISE"@), "TOGGLE_BITWISE"@) == m,
{
    reveal_strlit("TOGGLE_HISTORY");
    reveal_strlit("TOGGLE_BITS");
    reveal_strlit("TOGGLE_BITWISE");
}


/// Law: a backspace right after typing a digit into a number being typed
/// takes the digit back off the text, and the value is read again from that
/// text.
pub proof fn law_backspace_undoes_typing(m: CalcModel, c: char)
    requires
        !m.error,
        !m.new_input,
        m.input.len() > 0,
        digit_value(ascii_upper(c), m.base.radix_spec() as nat) is Some,
    ensures
        m.input_digit(c).press_back().input == m.input,
        m.input_digit(c).press_back().value == match parse_u64_spec(
            m.input,
            m.base.radix_spec() as nat,
        ) {
            Some(v) => v & m.word.mask_spec(),
            None => 0,
        },
{
    let d = ascii_upper(c);
    assert(m.input.push(d).drop_last() =~= m.input);
    assert(seq![d].drop_last() =~= Seq::<char>::empty());
}


/// Law: in a grouped text a space stands exactly at the positions a
/// positive multiple of five from the end, so the groups after the first
/// hold four characters each and the first holds one to four; one space is
/// added for every four characters past the first.
pub proof fn law_grouping_shape(s: Seq<char>)
    requires
        !s.contains(' '),
    ensures
        forall|i: int|
            0 <= i < group4(s).len() ==> (#[trigger] group4(s)[i] == ' ' <==> (i > 0 && (group4(
                s,
            ).len() - i) % 5 == 0)),
        s.len() > 0 ==> group4(s).len() == s.len() + (s.len() - 1) / 4,
    decreases s.len(),
{
    let g = group4(s);
    if s.len() <= 4 {
        assert forall|i: int| 0 <= i < g.len() implies (#[trigger] g[i] == ' ' <==> (i > 0 && (g.len()
            - i) % 5 == 0)) by {
            assert(g[i] != ' ') by {
                if g[i] == ' ' {
                    assert(s.contains(' '));
                }
            }
            if i > 0 {
                assert(0 < g.len() - i < 5);
            }
        }
    } else {
        let head = s.take(s.len() - 4);
        let tail = s.skip(s.len() - 4);
        assert(!head.contains(' ')) by {
            if head.contains(' ') {
                let k = choose|k: int| 0 <= k < head.len() && head[k] == ' ';
                assert(s[k] == ' ');
            }
        }
        law_grouping_shape(head);
        let gh = group4(head);
        assert(g == gh + seq![' '] + tail);
        assert forall|i: int| 0 <= i < g.len() implies (#[trigger] g[i] == ' ' <==> (i > 0 && (g.len()
            - i) % 5 == 0)) by {
            if i < gh.len() {
                assert(g[i] == gh[i]);
                assert(g.len() - i == (gh.len() - i) + 5);
            } else if i == gh.len() {
                assert(g[i] == ' ');
                assert(gh.len() > 0);
            } else {
                let k = i - gh.len() - 1;
                assert(g[i] == tail[k]);
                assert(tail[k] == s[k + s.len() - 4]);
                assert(g[i] != ' ') by {
                    if g[i] == ' ' {
                        assert(s.contains(' '));
                    }
                }
                assert(0 < g.len() - i < 5);
            }
        }
    }
}


/// Rotating left `k` times, `k` steps of one bit.
pub open spec fn rol_times(m: CalcModel, k: nat) -> CalcModel
    decreases k,
{
    if k == 0 {
        m
    } else {
        rol_times(m, (k - 1) as nat).press_rol()
    }
}

/// The value after `k` rotations left, for `0 < k < bits`: the low bits
/// moved up by `k`, the top `k` bits brought round to the bottom.
pub open spec fn rotated(v: u64, w: WordSize, k: u32) -> u64 {
    ((v << k) & w.mask_spec()) | (v >> ((w.bits_spec() - k) as u32))
}

/// One more rotation of a value already rotated `k` times, at every width.
proof fn lemma_rotation_steps(v: u64, k: u32)
    by (bit_vector)
    ensures
        v <= 0xFFu64 && 1u32 <= k && k < 7u32 ==> ((((((v << k) & 0xFFu64) | (v >> ((8u32 - k) as u32))) << 1u32) & 0xFFu64) | ((((v << k) & 0xFFu64) | (v >> ((8u32 - k) as u32))) >> 7u32))
            == (((v << ((k + 1u32) as u32)) & 0xFFu64) | (v >> ((8u32 - k - 1u32) as u32))),
        v <= 0xFFu64 && 1u32 <= k && k < 8u32 ==> (((v << k) & 0xFFu64) | (v >> ((8u32 - k) as u32))) <= 0xFFu64,
        v <= 0xFFu64 ==> ((((((v << 7u32) & 0xFFu64) | (v >> 1u32)) << 1u32) & 0xFFu64) | ((((v << 7u32) & 0xFFu64) | (v >> 1u32)) >> 7u32)) == v,
        v <= 0xFFFFu64 && 1u32 <= k && k < 15u32 ==> ((((((v << k) & 0xFFFFu64) | (v >> ((16u32 - k) as u32))) << 1u32) & 0xFFFFu64) | ((((v << k) & 0xFFFFu64) | (v >> ((16u32 - k) as u32))) >> 15u32))
            == (((v << ((k + 1u32) as u32)) & 0xFFFFu64) | (v >> ((16u32 - k - 1u32) as u32))),
        v <= 0xFFFFu64 && 1u32 <= k && k < 16u32 ==> (((v << k) & 0xFFFFu64) | (v >> ((16u32 - k) as u32))) <= 0xFFFFu64,
        v <= 0xFFFFu64 ==> ((((((v << 15u32) & 0xFFFFu64) | (v >> 1u32)) << 1u32) & 0xFFFFu64) | ((((v << 15u32) & 0xFFFFu64) | (v >> 1u32)) >> 15u32)) == v,
        v <= 0xFFFF_FFFFu64 && 1u32 <= k && k < 31u32 ==> ((((((v << k) & 0xFFFF_FFFFu64) | (v >> ((32u32 - k) as u32))) << 1u32) & 0xFFFF_FFFFu64) | ((((v << k) & 0xFFFF_FFFFu64) | (v >> ((32u32 - k) as u32))) >> 31u32))
            == (((v << ((k + 1u32) as u32)) & 0xFFFF_FFFFu64) | (v >> ((32u32 - k - 1u32) as u32))),
        v <= 0xFFFF_FFFFu64 && 1u32 <= k && k < 32u32 ==> (((v << k) & 0xFFFF_FFFFu64) | (v >> ((32u32 - k) as u32))) <= 0xFFFF_FFFFu64,
        v <= 0xFFFF_FFFFu64 ==> ((((((v << 31u32) & 0xFFFF_FFFFu64) | (v >> 1u32)) << 1u32) & 0xFFFF_FFFFu64) | ((((v << 31u32) & 0xFFFF_FFFFu64) | (v >> 1u32)) >> 31u32)) == v,
        v <= 0xFFFF_FFFF_FFFF_FFFFu64 && 1u32 <= k && k < 63u32 ==> ((((((v << k) & 0xFFFF_FFFF_FFFF_FFFFu64) | (v >> ((64u32 - k) as u32))) << 1u32) & 0xFFFF_FFFF_FFFF_FFFFu64) | ((((v << k) & 0xFFFF_FFFF_FFFF_FFFFu64) | (v >> ((64u32 - k) as u32))) >> 63u32))
            == (((v << ((k + 1u32) as u32)) & 0xFFFF_FFFF_FFFF_FFFFu64) | (v >> ((64u32 - k - 1u32) as u32))),
        v <= 0xFFFF_FFFF_FFFF_FFFFu64 && 1u32 <= k && k < 64u32 ==> (((v << k) & 0xFFFF_FFFF_FFFF_FFFFu64) | (v >> ((64u32 - k) as u32))) <= 0xFFFF_FFFF_FFFF_FFFFu64,
        v <= 0xFFFF_FFFF_FFFF_FFFFu64 ==> ((((((v << 63u32) & 0xFFFF_FFFF_FFFF_FFFFu64) | (v >> 1u32)) << 1u32) & 0xFFFF_FFFF_FFFF_FFFFu64) | ((((v << 63u32) & 0xFFFF_FFFF_FFFF_FFFFu64) | (v >> 1u32)) >> 63u32)) == v,
{
}

/// After `k` rotations the value has the closed form `rotated`.
proof fn lemma_rol_times(m: CalcModel, k: u32)
    requires
        m.wf(),
        1 <= k < m.word.bits_spec(),
    ensures
        rol_times(m, k as nat).value == rotated(m.value, m.word, k),
        rol_times(m, k as nat).word == m.word,
        rol_times(m, k as nat).wf(),
    decreases k,
{
    lemma_cut_fits(m.value, m.word);
    lemma_rotation_steps(m.value, k);
    if k > 1 {
        lemma_rotation_steps(m.value, (k - 1) as u32);
        lemma_rol_times(m, (k - 1) as u32);
        let p = rol_times(m, (k - 1) as nat);
        lemma_cut_fits(p.value, p.word);
        assert((k - 1) as u32 + 1u32 == k);
    }
}

/// Law: rotating left as many times as the word has bits gives the value
/// back.
pub proof fn law_full_rotation(m: CalcModel)
    requires
        m.wf(),
    ensures
        rol_times(m, m.word.bits_spec() as nat).value == m.value,
{
    let n = m.word.bits_spec();
    lemma_rol_times(m, (n - 1) as u32);
    let p = rol_times(m, (n - 1) as nat);
    lemma_cut_fits(p.value, p.word);
    lemma_rotation_steps(m.value, 1);
    assert(rol_times(m, n as nat) == p.press_rol());
}

/// The number of set bits of `v` among bits `lo` up to `hi`.
pub open spec fn bits_in(v: u64, lo: nat, hi: nat) -> nat
    decreases hi - lo,
{
    if lo >= hi {
        0
    } else {
        ((v >> (lo as u32)) & 1u64) as nat + bits_in(v, lo + 1, hi)
    }
}

/// The number of set bits of `v`, as `u64::count_ones` counts them.
pub open spec fn ones(v: u64) -> nat {
    bits_in(v, 0, 64)
}

/// Bit facts about one rotation, at every width.
proof fn lemma_rotation_bits(v: u64, i: u32, j: u32)
    by (bit_vector)
    ensures
        v <= 0xFFu64 && i < 7u32 && j == i + 1 ==> (((((v << 1u32) & 0xFFu64) | (v >> 7u32)) >> j) & 1u64) == ((v >> i) & 1u64),
        ((((v << 1u32) & 0xFFu64) | (v >> 7u32)) >> 0u32) & 1u64 == (v >> 7u32) & 1u64,
        v <= 0xFFu64 && 8u32 <= i && i < 64u32 ==> (v >> i) & 1u64 == 0u64,
        v <= 0xFFFFu64 && i < 15u32 && j == i + 1 ==> (((((v << 1u32) & 0xFFFFu64) | (v >> 15u32)) >> j) & 1u64) == ((v >> i) & 1u64),
        ((((v << 1u32) & 0xFFFFu64) | (v >> 15u32)) >> 0u32) & 1u64 == (v >> 15u32) & 1u64,
        v <= 0xFFFFu64 && 16u32 <= i && i < 64u32 ==> (v >> i) & 1u64 == 0u64,
        v <= 0xFFFF_FFFFu64 && i < 31u32 && j == i + 1 ==> (((((v << 1u32) & 0xFFFF_FFFFu64) | (v >> 31u32)) >> j) & 1u64) == ((v >> i) & 1u64),
        ((((v << 1u32) & 0xFFFF_FFFFu64) | (v >> 31u32)) >> 0u32) & 1u64 == (v >> 31u32) & 1u64,
        v <= 0xFFFF_FFFFu64 && 32u32 <= i && i < 64u32 ==> (v >> i) & 1u64 == 0u64,
        v <= 0xFFFF_FFFF_FFFF_FFFFu64 && i < 63u32 && j == i + 1 ==> (((((v << 1u32) & 0xFFFF_FFFF_FFFF_FFFFu64) | (v >> 63u32)) >> j) & 1u64) == ((v >> i) & 1u64),
        ((((v << 1u32) & 0xFFFF_FFFF_FFFF_FFFFu64) | (v >> 63u32)) >> 0u32) & 1u64 == (v >> 63u32) & 1u64,
{
}

/// Counting over a range is counting over its two halves.
proof fn lemma_bits_in_split(v: u64, lo: nat, mid: nat, hi: nat)
    requires
        lo <= mid <= hi,
    ensures
        bits_in(v, lo, hi) == bits_in(v, lo, mid) + bits_in(v, mid, hi),
    decreases mid - lo,
{
    if lo < mid {
        lemma_bits_in_split(v, lo + 1, mid, hi);
    }
}

/// A value within the word has no set bit above the word.
proof fn lemma_bits_above_word(v: u64, w: WordSize, lo: nat)
    requires
        v <= w.mask_spec(),
        w.bits_spec() <= lo <= 64,
    ensures
        bits_in(v, lo, 64) == 0,
    decreases 64 - lo,
{
    if lo < 64 {
        lemma_rotation_bits(v, lo as u32, 0);
        lemma_bits_above_word(v, w, lo + 1);
    }
}

/// Bits `lo + 1` up to `hi + 1` of the rotated value are bits `lo` up to
/// `hi` of the value.
proof fn lemma_bits_shifted(m: CalcModel, lo: nat, hi: nat)
    requires
        m.wf(),
        lo <= hi < m.word.bits_spec(),
    ensures
        bits_in(m.press_rol().value, lo + 1, hi + 1) == bits_in(m.value, lo, hi),
    decreases hi - lo,
{
    lemma_cut_fits(m.value, m.word);
    if lo < hi {
        lemma_rotation_bits(m.value, lo as u32, (lo + 1) as u32);
        lemma_bits_shifted(m, lo + 1, hi);
    }
}

/// A rotation left keeps the number of set bits.
proof fn lemma_rol_keeps_ones(m: CalcModel)
    requires
        m.wf(),
    ensures
        ones(m.press_rol().value) == ones(m.value),
{
    let n = m.word.bits_spec() as nat;
    let v = m.value;
    let r = m.press_rol().value;
    lemma_cut_fits(v, m.word);
    lemma_word_bits(v, 0);
    lemma_cut_fits(r, m.word);
    lemma_bits_in_split(v, 0, n, 64);
    lemma_bits_in_split(r, 0, n, 64);
    lemma_bits_above_word(v, m.word, n);
    lemma_bits_above_word(r, m.word, n);
    lemma_bits_in_split(v, 0, (n - 1) as nat, n);
    lemma_bits_in_split(r, 0, 1, n);
    lemma_bits_shifted(m, 0, (n - 1) as nat);
    lemma_rotation_bits(v, 0, 0);
    assert(bits_in(v, n, n) == 0);
    assert(bits_in(v, (n - 1) as nat, n) == ((v >> ((n - 1) as u32)) & 1u64) as nat);
    assert(bits_in(r, 1, 1) == 0);
    assert(bits_in(r, 0, 1) == ((r >> 0u32) & 1u64) as nat);
}

/// Law: a rotation left or right keeps the number of set bits.
pub proof fn law_rotation_keeps_ones(m: CalcModel)
    requires
        m.wf(),
    ensures
        ones(m.press_rol().value) == ones(m.value),
        ones(m.press_ror().value) == ones(m.value),
{
    lemma_rol_keeps_ones(m);
    let q = m.press_ror();
    lemma_cut_fits(m.value, m.word);
    lemma_word_bits(m.value, 0);
    lemma_cut_fits(q.value, q.word);
    law_rotations_undo(m);
    lemma_rol_keeps_ones(q);
}


/// Law: outside the error state the display has no lower-case letter and no
/// leading zero; in decimal it reads back, as a signed 64-bit number, as the
/// signed value. In the error state the display is `Error`.
pub proof fn law_display_text_shape(m: CalcModel)
    ensures
        m.error ==> m.display() == error_text(),
        !m.error ==> has_no_lower(m.display()) && no_leading_zero(m.display()),
        !m.error && m.base == Base::Dec ==> parse_i64_spec(m.display()) == Some(m.signed() as i64),
{
    if !m.error {
        let d = m.display();
        lemma_cut_fits(m.value, m.word);
        law_signed_agrees(m);
        if m.base == Base::Dec {
            let x = m.signed();
            if x < 0 {
                let mag = (-x) as nat;
                lemma_digits_shape(mag, 10);
                lemma_digits_of_value(mag, 10);
                let t = digits_of(mag, 10);
                assert(d == seq!['-'] + t);
                assert(d.drop_first() =~= t);
                assert(d[1] == t[0]);
                assert forall|i: int| 0 <= i < d.len() implies !('a' <= #[trigger] d[i] && d[i] <= 'z') by {
                    if i > 0 {
                        assert(d[i] == t[i - 1]);
                    }
                }
                assert(m.word.half() <= 0x8000_0000_0000_0000);
                assert(digits_value(d.drop_first(), 10) == Some(mag));
                assert(parse_i64_spec(d) == Some(x as i64));
            } else {
                lemma_digits_shape(x as nat, 10);
                lemma_digits_of_value(x as nat, 10);
                assert(m.word.half() <= 0x8000_0000_0000_0000);
                assert(d == digits_of(x as nat, 10));
                assert(d[0] != '-' && d[0] != '+');
                assert(parse_i64_spec(d) == Some(x as i64));
            }
        } else {
            let r: nat = m.base.radix_spec() as nat;
            lemma_digits_shape(m.cur() as nat, r);
        }
    }
}

} // verus!
