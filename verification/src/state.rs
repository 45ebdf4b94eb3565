use vstd::prelude::*;
use crate::radix::{
    ascii_upper, char_to_string, digit_value, digits_of, format_signed, format_unsigned, group4,
    group_by_four, parse_u64, parse_u64_spec, pop_char, push_char, signed_text, str_eq,
    to_ascii_upper,
};

verus! {

/// The base in which the calculator shows and reads numbers.
#[derive(Clone, Copy, Debug, PartialEq, Eq, Structural)]
pub enum Base {
    Hex,
    Dec,
    Oct,
    Bin,
}

/// The width of the calculator's word.
#[derive(Clone, Copy, Debug, PartialEq, Eq, Structural)]
pub enum WordSize {
    QWord,
    DWord,
    Word,
    Byte,
}

/// A binary operator waiting for its right operand.
#[derive(Clone, Copy, Debug, PartialEq, Eq, Structural)]
pub enum Op {
    Add,
    Sub,
    Mul,
    Div,
    Mod,
    And,
    Or,
    Xor,
    Lsh,
    Rsh,
}

impl Base {
    /// The numeric radix of the base.
    pub open spec fn radix_spec(self) -> u32 {
        match self {
            Base::Hex => 16,
            Base::Dec => 10,
            Base::Oct => 8,
            Base::Bin => 2,
        }
    }

    pub fn label(self) -> (s: &'static str)
        ensures
            s@ == match self {
                Base::Hex => "HEX"@,
                Base::Dec => "DEC"@,
                Base::Oct => "OCT"@,
                Base::Bin => "BIN"@,
            },
    {
        match self {
            Base::Hex => "HEX",
            Base::Dec => "DEC",
            Base::Oct => "OCT",
            Base::Bin => "BIN",
        }
    }

    #[verifier::when_used_as_spec(radix_spec)]
    pub fn radix(self) -> (r: u32)
        ensures
            r == self.radix_spec(),
    {
        match self {
            Base::Hex => 16,
            Base::Dec => 10,
            Base::Oct => 8,
            Base::Bin => 2,
        }
    }


    /// Whether `c` is a digit of this base (either case for hexadecimal letters).
    pub fn valid_char(self, c: char) -> (r: bool)
        ensures
            r == (digit_value(c, self.radix_spec() as nat) is Some),
    {
        match self {
            Base::Hex => ('0' <= c && c <= '9') || ('a' <= c && c <= 'f') || ('A' <= c && c <= 'F'),
            Base::Dec => '0' <= c && c <= '9',
            Base::Oct => '0' <= c && c <= '7',
            Base::Bin => c == '0' || c == '1',
        }
    }
}

/// Facts about the word widths that the shift operators compute.
proof fn lemma_width_shifts()
    by (bit_vector)
    ensures
        1u64 << 8u32 == 0x100u64,
        1u64 << 16u32 == 0x1_0000u64,
        1u64 << 32u32 == 0x1_0000_0000u64,
        1u64 << 7u32 == 0x80u64,
        1u64 << 15u32 == 0x8000u64,
        1u64 << 31u32 == 0x8000_0000u64,
        1i64 << 8u32 == 0x100i64,
        1i64 << 16u32 == 0x1_0000i64,
        1i64 << 32u32 == 0x1_0000_0000i64,
{
}

impl WordSize {
    /// The number of bits in the word.
    pub open spec fn bits_spec(self) -> u32 {
        match self {
            WordSize::QWord => 64,
            WordSize::DWord => 32,
            WordSize::Word => 16,
            WordSize::Byte => 8,
        }
    }

    /// The word's mask: its low `bits` bits set.
    pub open spec fn mask_spec(self) -> u64 {
        match self {
            WordSize::QWord => 0xFFFF_FFFF_FFFF_FFFF,
            WordSize::DWord => 0xFFFF_FFFF,
            WordSize::Word => 0xFFFF,
            WordSize::Byte => 0xFF,
        }
    }

    /// Two to the power of the word's bits: how many values the word holds.
    pub open spec fn modulus(self) -> int {
        match self {
            WordSize::QWord => 0x1_0000_0000_0000_0000,
            WordSize::DWord => 0x1_0000_0000,
            WordSize::Word => 0x1_0000,
            WordSize::Byte => 0x100,
        }
    }

    /// The weight of the word's top bit, its sign bit when read as signed.
    pub open spec fn half(self) -> int {
        self.modulus() / 2
    }

    pub fn label(self) -> (s: &'static str)
        ensures
            s@ == match self {
                WordSize::QWord => "QWORD"@,
                WordSize::DWord => "DWORD"@,
                WordSize::Word => "WORD"@,
                WordSize::Byte => "BYTE"@,
            },
    {
        match self {
            WordSize::QWord => "QWORD",
            WordSize::DWord => "DWORD",
            WordSize::Word => "WORD",
            WordSize::Byte => "BYTE",
        }
    }

    #[verifier::when_used_as_spec(bits_spec)]
    pub fn bits(self) -> (b: u32)
        ensures
            b == self.bits_spec(),
    {
        match self {
            WordSize::QWord => 64,
            WordSize::DWord => 32,
            WordSize::Word => 16,
            WordSize::Byte => 8,
        }
    }

    #[verifier::when_used_as_spec(mask_spec)]
    pub fn mask(self) -> (m: u64)
        ensures
            m == self.mask_spec(),
            m as int == self.modulus() - 1,
    {
        proof {
            lemma_width_shifts();
        }
        match self {
            WordSize::QWord => u64::MAX,
            _ => (1u64 << self.bits()) - 1,
        }
    }
}

impl Op {
    /// The operator's symbol.
    pub open spec fn label_text(self) -> Seq<char> {
        match self {
            Op::Add => "+"@,
            Op::Sub => "-"@,
            Op::Mul => "×"@,
            Op::Div => "÷"@,
            Op::Mod => "%"@,
            Op::And => "&"@,
            Op::Or => "|"@,
            Op::Xor => "^"@,
            Op::Lsh => "<<"@,
            Op::Rsh => ">>"@,
        }
    }

    pub fn label(self) -> (s: &'static str)
        ensures
            s@ == self.label_text(),
    {
        match self {
            Op::Add => "+",
            Op::Sub => "-",
            Op::Mul => "×",
            Op::Div => "÷",
            Op::Mod => "%",
            Op::And => "&",
            Op::Or => "|",
            Op::Xor => "^",
            Op::Lsh => "<<",
            Op::Rsh => ">>",
        }
    }
}


/// What the calculator shows after a failed operation.
pub open spec fn error_text() -> Seq<char> {
    seq!['E', 'r', 'r', 'o', 'r']
}

/// `v` read as a two's-complement number of the word's width.
pub open spec fn signed_of(v: u64, w: WordSize) -> int {
    if v as int >= w.half() {
        v as int - w.modulus()
    } else {
        v as int
    }
}

/// The text of `v`, cut to the word, in base `b`: upper-case digits without
/// leading zeros, and for decimal the signed reading with a minus sign.
pub open spec fn value_text(v: u64, b: Base, w: WordSize) -> Seq<char> {
    let m = v & w.mask_spec();
    match b {
        Base::Hex => digits_of(m as nat, 16),
        Base::Dec => signed_text(signed_of(m, w)),
        Base::Oct => digits_of(m as nat, 8),
        Base::Bin => digits_of(m as nat, 2),
    }
}

/// What `a op b` gives before it is cut to the word, or nothing for a
/// division or remainder by zero. Sums, differences and products wrap at
/// 64 bits; a shift count is taken modulo the word's bits.
pub open spec fn op_result(op: Op, a: u64, b: u64, w: WordSize) -> Option<u64> {
    match op {
        Op::Add => Some(((a as int + b as int) % 0x1_0000_0000_0000_0000) as u64),
        Op::Sub => Some(((a as int - b as int) % 0x1_0000_0000_0000_0000) as u64),
        Op::Mul => Some(((a as int * b as int) % 0x1_0000_0000_0000_0000) as u64),
        Op::Div => if b == 0 {
            None
        } else {
            Some(a / b)
        },
        Op::Mod => if b == 0 {
            None
        } else {
            Some(a % b)
        },
        Op::And => Some(a & b),
        Op::Or => Some(a | b),
        Op::Xor => Some(a ^ b),
        Op::Lsh => Some(a << ((b % (w.bits_spec() as u64)) as u32)),
        Op::Rsh => Some(a >> ((b % (w.bits_spec() as u64)) as u32)),
    }
}

/// The calculator's state as the contracts see it: the text typed so far is a
/// sequence of characters.
#[verifier::ext_equal]
pub struct CalcModel {
    pub value: u64,
    pub prev: u64,
    pub input: Seq<char>,
    pub operator: Option<Op>,
    pub new_input: bool,
    pub base: Base,
    pub word: WordSize,
    pub error: bool,
}

impl CalcModel {
    /// The state a calculator starts in.
    pub open spec fn initial() -> CalcModel {
        CalcModel {
            value: 0,
            prev: 0,
            input: seq!['0'],
            operator: None,
            new_input: true,
            base: Base::Hex,
            word: WordSize::QWord,
            error: false,
        }
    }

    /// The value stands within the word.
    pub open spec fn wf(self) -> bool {
        self.value <= self.word.mask_spec()
    }

    /// The value cut to the word.
    pub open spec fn cur(self) -> u64 {
        self.value & self.word.mask_spec()
    }

    /// The value cut to the word, read as signed.
    pub open spec fn signed(self) -> int {
        signed_of(self.cur(), self.word)
    }

    /// The main display: the value in the current base, or the error text.
    pub open spec fn display(self) -> Seq<char> {
        if self.error {
            error_text()
        } else {
            value_text(self.value, self.base, self.word)
        }
    }

    /// The main display with hexadecimal and binary digits in groups of four.
    pub open spec fn display_grouped(self) -> Seq<char> {
        if !self.error && (self.base == Base::Hex || self.base == Base::Bin) {
            group4(self.display())
        } else {
            self.display()
        }
    }

    pub open spec fn set_base(self, b: Base) -> CalcModel {
        CalcModel { base: b, new_input: true, ..self }
    }

    pub open spec fn set_word(self, w: WordSize) -> CalcModel {
        CalcModel { word: w, value: self.value & w.mask_spec(), new_input: true, ..self }
    }

    /// The text after typing the digit `d`: it replaces the text when a new
    /// number starts, replaces a lone `0`, and is appended otherwise.
    pub open spec fn input_after(self, d: char) -> Seq<char> {
        if self.new_input {
            seq![d]
        } else if self.input == seq!['0'] {
            seq![d]
        } else {
            self.input.push(d)
        }
    }

    /// Typing the character `c`: ignored after an error or when, upper-cased,
    /// it is no digit of the base; otherwise the text grows and the value
    /// becomes the text read in the base and cut to the word, unless the text
    /// no longer fits in 64 bits, in which case the value stays.
    pub open spec fn input_digit(self, c: char) -> CalcModel {
        let d = ascii_upper(c);
        if self.error || digit_value(d, self.base.radix_spec() as nat) is None {
            self
        } else {
            let input = self.input_after(d);
            let value = match parse_u64_spec(input, self.base.radix_spec() as nat) {
                Some(v) => v & self.word.mask_spec(),
                None => self.value,
            };
            CalcModel { input, value, new_input: false, ..self }
        }
    }

    /// Flipping bit `pos`, when it lies within the word.
    pub open spec fn toggle_bit(self, pos: u32) -> CalcModel {
        if pos < self.word.bits_spec() {
            CalcModel { value: self.value ^ (1u64 << pos), new_input: true, ..self }
        } else {
            self
        }
    }

    /// Completing the pending operation with the current value as its right
    /// operand; a division or remainder by zero sets the error flag.
    pub open spec fn apply(self) -> CalcModel {
        match self.operator {
            None => self,
            Some(op) => match op_result(op, self.prev, self.cur(), self.word) {
                Some(v) => CalcModel {
                    value: v & self.word.mask_spec(),
                    operator: None,
                    new_input: true,
                    ..self
                },
                None => CalcModel { error: true, operator: None, new_input: true, ..self },
            },
        }
    }

    /// Pressing an operator: a pending operation whose right operand has been
    /// typed is completed first; the value becomes the left operand.
    pub open spec fn press_op(self, op: Op) -> CalcModel {
        if self.error {
            self
        } else {
            let m = if self.operator is Some && !self.new_input {
                self.apply()
            } else {
                self
            };
            CalcModel { prev: m.cur(), operator: Some(op), new_input: true, ..m }
        }
    }

    pub open spec fn press_eq(self) -> CalcModel {
        if self.error {
            self
        } else {
            self.apply()
        }
    }

    /// Clearing the entry: value zero, text `0`, no error.
    pub open spec fn press_ce(self) -> CalcModel {
        CalcModel { value: 0, input: seq!['0'], new_input: true, error: false, ..self }
    }

    /// Clearing everything the entry clears, and the pending operation.
    pub open spec fn press_c(self) -> CalcModel {
        CalcModel { operator: None, prev: 0, ..self.press_ce() }
    }

    /// The text after a backspace: its last character gone, `0` when nothing
    /// is left.
    pub open spec fn input_after_back(self) -> Seq<char> {
        let t = if self.input.len() > 0 {
            self.input.drop_last()
        } else {
            self.input
        };
        if t.len() == 0 {
            seq!['0']
        } else {
            t
        }
    }

    /// Backspace while typing a number: the value is read again from the
    /// shortened text, and is zero when the text does not read.
    pub open spec fn press_back(self) -> CalcModel {
        if self.error || self.new_input {
            self
        } else {
            let input = self.input_after_back();
            let value = match parse_u64_spec(input, self.base.radix_spec() as nat) {
                Some(v) => v & self.word.mask_spec(),
                None => 0,
            };
            CalcModel { input, value, ..self }
        }
    }

    /// Two's-complement negation within the word.
    pub open spec fn press_negate(self) -> CalcModel {
        CalcModel {
            value: ((self.word.modulus() - self.cur()) % self.word.modulus()) as u64,
            new_input: true,
            ..self
        }
    }

    /// Bitwise complement within the word: every bit of the word flipped.
    pub open spec fn press_not(self) -> CalcModel {
        CalcModel { value: self.word.mask_spec() ^ self.cur(), new_input: true, ..self }
    }

    /// Rotation left by one bit within the word: the top bit comes round to
    /// bit zero.
    pub open spec fn press_rol(self) -> CalcModel {
        let v = self.cur();
        CalcModel {
            value: ((v << 1u32) & self.word.mask_spec()) | (v >> ((self.word.bits_spec() - 1) as u32)),
            new_input: true,
            ..self
        }
    }

    /// Rotation right by one bit within the word: bit zero comes round to the
    /// top bit.
    pub open spec fn press_ror(self) -> CalcModel {
        let v = self.cur();
        CalcModel {
            value: (v >> 1u32) | ((v & 1u64) << ((self.word.bits_spec() - 1) as u32)),
            new_input: true,
            ..self
        }
    }
}

/// The state of a programmer's calculator.
#[derive(Clone, Debug)]
pub struct CalcState {
    pub value: u64,
    pub prev: u64,
    pub input_str: String,
    pub operator: Option<Op>,
    pub new_input: bool,
    pub base: Base,
    pub word: WordSize,
    pub error: bool,
}

impl View for CalcState {
    type V = CalcModel;

    open spec fn view(&self) -> CalcModel {
        CalcModel {
            value: self.value,
            prev: self.prev,
            input: self.input_str@,
            operator: self.operator,
            new_input: self.new_input,
            base: self.base,
            word: self.word,
            error: self.error,
        }
    }
}


/// Facts about each word's mask that the bit operators compute.
proof fn lemma_masks(v: u64)
    by (bit_vector)
    ensures
        v & 0xFFu64 <= 0xFFu64,
        v & 0xFFFFu64 <= 0xFFFFu64,
        v & 0xFFFF_FFFFu64 <= 0xFFFF_FFFFu64,
        v & 0xFFFF_FFFF_FFFF_FFFFu64 == v,
        v <= 0xFFu64 ==> v & 0xFFu64 == v,
        v <= 0xFFFFu64 ==> v & 0xFFFFu64 == v,
        v <= 0xFFFF_FFFFu64 ==> v & 0xFFFF_FFFFu64 == v,
{
}

/// A 64-bit pattern read as a signed number.
proof fn lemma_u64_as_i64(v: u64)
    by (bit_vector)
    ensures
        v < 0x8000_0000_0000_0000u64 ==> (v as i64) as int == v as int,
        v >= 0x8000_0000_0000_0000u64 ==> (v as i64) as int == v as int - 0x1_0000_0000_0000_0000int,
{
}

/// The value cut to a word lies within it.
pub proof fn lemma_cut_fits(v: u64, w: WordSize)
    ensures
        v & w.mask_spec() <= w.mask_spec(),
        v <= w.mask_spec() ==> v & w.mask_spec() == v,
{
    lemma_masks(v);
}

/// `v`, which lies within the word, read as a signed number of the word's width.
pub fn signed_in(v: u64, w: WordSize) -> (r: i64)
    requires
        v <= w.mask_spec(),
    ensures
        r as int == signed_of(v, w),
{
    proof {
        lemma_width_shifts();
        lemma_u64_as_i64(v);
    }
    let bits = w.bits();
    if bits < 64 && v >= (1u64 << (bits - 1)) {
        (v as i64) - (1i64 << bits)
    } else {
        v as i64
    }
}

/// The text of `v`, cut to the word `w`, in base `b`.
pub fn format_value(v: u64, b: Base, w: WordSize) -> (s: String)
    ensures
        s@ == value_text(v, b, w),
{
    let m = v & w.mask();
    proof {
        lemma_cut_fits(v, w);
    }
    match b {
        Base::Hex => format_unsigned(m, 16),
        Base::Dec => format_signed(signed_in(m, w)),
        Base::Oct => format_unsigned(m, 8),
        Base::Bin => {
            if m == 0 {
                let s = String::from_str("0");
                proof {
                    reveal_strlit("0");
                    assert(s@ =~= digits_of(0, 2));
                }
                s
            } else {
                format_unsigned(m, 2)
            }
        },
    }
}


/// The calculator's shift-and-mask code for rotations and complement equals
/// the plain bitwise description, at every width.
proof fn lemma_rotation_code(v: u64)
    by (bit_vector)
    ensures
        v <= 0xFFu64 ==> ((v << 1u32) | ((v >> 7u32) & 1u64)) & 0xFFu64 == ((v << 1u32) & 0xFFu64) | (v >> 7u32),
        v <= 0xFFu64 ==> ((v >> 1u32) | ((v & 1u64) << 7u32)) & 0xFFu64 == (v >> 1u32) | ((v & 1u64) << 7u32),
        v <= 0xFFu64 ==> !v & 0xFFu64 == 0xFFu64 ^ v,
        v <= 0xFFFFu64 ==> ((v << 1u32) | ((v >> 15u32) & 1u64)) & 0xFFFFu64 == ((v << 1u32) & 0xFFFFu64) | (v >> 15u32),
        v <= 0xFFFFu64 ==> ((v >> 1u32) | ((v & 1u64) << 15u32)) & 0xFFFFu64 == (v >> 1u32) | ((v & 1u64) << 15u32),
        v <= 0xFFFFu64 ==> !v & 0xFFFFu64 == 0xFFFFu64 ^ v,
        v <= 0xFFFF_FFFFu64 ==> ((v << 1u32) | ((v >> 31u32) & 1u64)) & 0xFFFF_FFFFu64 == ((v << 1u32) & 0xFFFF_FFFFu64) | (v >> 31u32),
        v <= 0xFFFF_FFFFu64 ==> ((v >> 1u32) | ((v & 1u64) << 31u32)) & 0xFFFF_FFFFu64 == (v >> 1u32) | ((v & 1u64) << 31u32),
        v <= 0xFFFF_FFFFu64 ==> !v & 0xFFFF_FFFFu64 == 0xFFFF_FFFFu64 ^ v,
        v <= 0xFFFF_FFFF_FFFF_FFFFu64 ==> ((v << 1u32) | ((v >> 63u32) & 1u64)) & 0xFFFF_FFFF_FFFF_FFFFu64 == ((v << 1u32) & 0xFFFF_FFFF_FFFF_FFFFu64) | (v >> 63u32),
        v <= 0xFFFF_FFFF_FFFF_FFFFu64 ==> ((v >> 1u32) | ((v & 1u64) << 63u32)) & 0xFFFF_FFFF_FFFF_FFFFu64 == (v >> 1u32) | ((v & 1u64) << 63u32),
        v <= 0xFFFF_FFFF_FFFF_FFFFu64 ==> !v & 0xFFFF_FFFF_FFFF_FFFFu64 == 0xFFFF_FFFF_FFFF_FFFFu64 ^ v,
{
}


impl Default for CalcState {
    fn default() -> (s: Self)
        ensures
            s@ == CalcModel::initial(),
    {
        let s = CalcState {
            value: 0,
            prev: 0,
            input_str: String::from_str("0"),
            operator: None,
            new_input: true,
            base: Base::Hex,
            word: WordSize::QWord,
            error: false,
        };
        proof {
            reveal_strlit("0");
            assert(s@ =~= CalcModel::initial());
        }
        s
    }
}

impl CalcState {
    pub fn mask(&self) -> (m: u64)
        ensures
            m == self.word.mask_spec(),
    {
        self.word.mask()
    }

    /// The value, cut to the word, read as a two's-complement number of the
    /// word's width.
    pub fn signed_value(&self) -> (r: i64)
        ensures
            r as int == self@.signed(),
            -self.word.half() <= r < self.word.half(),
    {
        let v = self.value & self.mask();
        proof {
            lemma_cut_fits(self.value, self.word);
        }
        signed_in(v, self.word)
    }

    /// The main display: `Error` after a failed operation, else the value in
    /// the current base.
    pub fn display_value(&self) -> (s: String)
        ensures
            s@ == self@.display(),
    {
        if self.error {
            let s = String::from_str("Error");
            proof {
                reveal_strlit("Error");
                assert(s@ =~= error_text());
            }
            return s;
        }
        format_value(self.value, self.base, self.word)
    }

    /// The main display with hexadecimal and binary digits grouped by four
    /// from the right.
    pub fn display_grouped(&self) -> (s: String)
        ensures
            s@ == self@.display_grouped(),
    {
        let raw = self.display_value();
        if self.error {
            return raw;
        }
        match self.base {
            Base::Hex | Base::Bin => group_by_four(raw.as_str()),
            _ => raw,
        }
    }

    /// The value, cut to the word, in the given base.
    pub fn value_in(&self, base: Base) -> (s: String)
        ensures
            s@ == value_text(self.value, base, self.word),
    {
        format_value(self.value, base, self.word)
    }

    pub fn set_base(&mut self, b: Base)
        ensures
            final(self)@ == old(self)@.set_base(b),
    {
        self.base = b;
        self.new_input = true;
    }

    pub fn set_word(&mut self, w: WordSize)
        ensures
            final(self)@ == old(self)@.set_word(w),
    {
        self.word = w;
        self.value = self.value & self.mask();
        self.new_input = true;
    }

    /// Types one character.
    pub fn input_digit(&mut self, c: char)
        ensures
            final(self)@ == old(self)@.input_digit(c),
    {
        if self.error {
            return;
        }
        let cu = to_ascii_upper(c);
        if !self.base.valid_char(cu) {
            return;
        }
        if self.new_input {
            self.input_str = char_to_string(cu);
            self.new_input = false;
        } else {
            proof {
                reveal_strlit("0");
                assert("0"@ =~= seq!['0']);
            }
            if str_eq(self.input_str.as_str(), "0") {
                self.input_str = String::new();
            }
            push_char(&mut self.input_str, cu);
            assert(self.input_str@ =~= old(self)@.input_after(cu));
        }
        if let Some(v) = parse_u64(self.input_str.as_str(), self.base.radix()) {
            self.value = v & self.mask();
        }
    }

    /// Flips bit `pos` of the value when the bit lies within the word.
    pub fn toggle_bit(&mut self, pos: u32)
        ensures
            final(self)@ == old(self)@.toggle_bit(pos),
    {
        if pos < self.word.bits() {
            self.value = self.value ^ (1u64 << pos);
            self.new_input = true;
        }
    }

    fn apply(&mut self)
        ensures
            final(self)@ == old(self)@.apply(),
    {
        let op = match self.operator {
            Some(o) => o,
            None => return,
        };
        self.operator = None;
        let a = self.prev;
        let b = self.value & self.mask();
        let bits = self.word.bits() as u64;
        let result: Option<u64> = match op {
            Op::Add => Some(a.wrapping_add(b)),
            Op::Sub => Some(a.wrapping_sub(b)),
            Op::Mul => Some(a.wrapping_mul(b)),
            Op::Div => if b == 0 {
                None
            } else {
                Some(a / b)
            },
            Op::Mod => if b == 0 {
                None
            } else {
                Some(a % b)
            },
            Op::And => Some(a & b),
            Op::Or => Some(a | b),
            Op::Xor => Some(a ^ b),
            Op::Lsh => Some(a << ((b % bits) as u32)),
            Op::Rsh => Some(a >> ((b % bits) as u32)),
        };
        match result {
            Some(v) => {
                self.value = v & self.mask();
            },
            None => {
                self.error = true;
            },
        }
        self.new_input = true;
    }

    /// Presses an operator key.
    pub fn press_op(&mut self, op: Op)
        ensures
            final(self)@ == old(self)@.press_op(op),
    {
        if self.error {
            return;
        }
        if self.operator.is_some() && !self.new_input {
            self.apply();
        }
        self.prev = self.value & self.mask();
        self.operator = Some(op);
        self.new_input = true;
    }

    /// Presses `=`.
    pub fn press_eq(&mut self)
        ensures
            final(self)@ == old(self)@.press_eq(),
    {
        if self.error {
            return;
        }
        self.apply();
    }

    /// Clears the entry.
    pub fn press_ce(&mut self)
        ensures
            final(self)@ == old(self)@.press_ce(),
    {
        self.value = 0;
        self.input_str = String::from_str("0");
        self.new_input = true;
        self.error = false;
        proof {
            reveal_strlit("0");
            assert(self.input_str@ =~= seq!['0']);
        }
    }

    /// Clears everything.
    pub fn press_c(&mut self)
        ensures
            final(self)@ == old(self)@.press_c(),
    {
        self.press_ce();
        self.operator = None;
        self.prev = 0;
    }

    /// Deletes the last typed digit.
    pub fn press_back(&mut self)
        ensures
            final(self)@ == old(self)@.press_back(),
    {
        if self.error || self.new_input {
            return;
        }
        pop_char(&mut self.input_str);
        if self.input_str.as_str().unicode_len() == 0 {
            self.input_str = String::from_str("0");
            proof {
                reveal_strlit("0");
            }
        }
        proof {
            assert(self.input_str@ =~= old(self)@.input_after_back());
        }
        if let Some(v) = parse_u64(self.input_str.as_str(), self.base.radix()) {
            self.value = v & self.mask();
        } else {
            self.value = 0;
        }
    }

    /// Negates the value in two's complement within the word.
    pub fn press_negate(&mut self)
        ensures
            final(self)@ == old(self)@.press_negate(),
    {
        let m = self.mask();
        let v = self.value & m;
        proof {
            lemma_cut_fits(self.value, self.word);
        }
        self.value = if v == 0 {
            0
        } else {
            (m - v) + 1
        };
        self.new_input = true;
    }

    /// Complements every bit of the word.
    pub fn press_not(&mut self)
        ensures
            final(self)@ == old(self)@.press_not(),
    {
        proof {
            lemma_rotation_code(self.value & self.word.mask_spec());
            lemma_cut_fits(self.value, self.word);
            lemma_not_cut(self.value);
        }
        self.value = (!self.value) & self.mask();
        self.new_input = true;
    }

    /// Rotates the word left by one bit.
    pub fn press_rol(&mut self)
        ensures
            final(self)@ == old(self)@.press_rol(),
    {
        let bits = self.word.bits();
        let v = self.value & self.mask();
        proof {
            lemma_cut_fits(self.value, self.word);
            lemma_rotation_code(v);
        }
        let top = (v >> (bits - 1)) & 1;
        self.value = ((v << 1) | top) & self.mask();
        self.new_input = true;
    }

    /// Rotates the word right by one bit.
    pub fn press_ror(&mut self)
        ensures
            final(self)@ == old(self)@.press_ror(),
    {
        let bits = self.word.bits();
        let v = self.value & self.mask();
        proof {
            lemma_cut_fits(self.value, self.word);
            lemma_rotation_code(v);
        }
        let bot = v & 1;
        self.value = ((v >> 1) | (bot << (bits - 1))) & self.mask();
        self.new_input = true;
    }
}

/// Complementing the value and cutting it to the word is complementing the
/// value's cut within the word.
proof fn lemma_not_cut(v: u64)
    by (bit_vector)
    ensures
        !v & 0xFFu64 == !(v & 0xFFu64) & 0xFFu64,
        !v & 0xFFFFu64 == !(v & 0xFFFFu64) & 0xFFFFu64,
        !v & 0xFFFF_FFFFu64 == !(v & 0xFFFF_FFFFu64) & 0xFFFF_FFFFu64,
        !v & 0xFFFF_FFFF_FFFF_FFFFu64 == !(v & 0xFFFF_FFFF_FFFF_FFFFu64) & 0xFFFF_FFFF_FFFF_FFFFu64,
{
}

} // verus!
