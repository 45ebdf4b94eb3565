use progcalc::state::{format_value, signed_in, Base, CalcState, Op, WordSize};

fn typed(s: &str) -> CalcState {
    let mut st = CalcState::default();
    for c in s.chars() {
        st.input_digit(c);
    }
    st
}

#[test]
fn base_labels_and_radix() {
    assert_eq!(Base::Hex.label(), "HEX");
    assert_eq!(Base::Dec.label(), "DEC");
    assert_eq!(Base::Oct.label(), "OCT");
    assert_eq!(Base::Bin.label(), "BIN");
    assert_eq!(Base::Hex.radix(), 16);
    assert_eq!(Base::Dec.radix(), 10);
    assert_eq!(Base::Oct.radix(), 8);
    assert_eq!(Base::Bin.radix(), 2);
}

#[test]
fn base_valid_chars() {
    assert!(Base::Hex.valid_char('a'));
    assert!(Base::Hex.valid_char('F'));
    assert!(!Base::Hex.valid_char('g'));
    assert!(Base::Dec.valid_char('9'));
    assert!(!Base::Dec.valid_char('A'));
    assert!(Base::Oct.valid_char('7'));
    assert!(!Base::Oct.valid_char('8'));
    assert!(Base::Bin.valid_char('1'));
    assert!(!Base::Bin.valid_char('2'));
}

#[test]
fn word_sizes() {
    assert_eq!(WordSize::QWord.label(), "QWORD");
    assert_eq!(WordSize::DWord.label(), "DWORD");
    assert_eq!(WordSize::Word.label(), "WORD");
    assert_eq!(WordSize::Byte.label(), "BYTE");
    assert_eq!(WordSize::QWord.bits(), 64);
    assert_eq!(WordSize::Byte.bits(), 8);
    assert_eq!(WordSize::QWord.mask(), u64::MAX);
    assert_eq!(WordSize::DWord.mask(), 0xFFFF_FFFF);
    assert_eq!(WordSize::Word.mask(), 0xFFFF);
    assert_eq!(WordSize::Byte.mask(), 0xFF);
}

#[test]
fn op_labels() {
    let ops = [Op::Add, Op::Sub, Op::Mul, Op::Div, Op::Mod, Op::And, Op::Or, Op::Xor, Op::Lsh, Op::Rsh];
    let labels: Vec<&str> = ops.iter().map(|o| o.label()).collect();
    assert_eq!(labels, vec!["+", "-", "×", "÷", "%", "&", "|", "^", "<<", ">>"]);
}

#[test]
fn default_state() {
    let st = CalcState::default();
    assert_eq!(st.value, 0);
    assert_eq!(st.prev, 0);
    assert_eq!(st.input_str, "0");
    assert_eq!(st.operator, None);
    assert!(st.new_input);
    assert_eq!(st.base, Base::Hex);
    assert_eq!(st.word, WordSize::QWord);
    assert!(!st.error);
    assert_eq!(st.display_value(), "0");
    assert_eq!(st.mask(), u64::MAX);
}

#[test]
fn typing_hex_digits() {
    let st = typed("1a2");
    assert_eq!(st.input_str, "1A2");
    assert_eq!(st.value, 0x1A2);
    assert_eq!(st.display_value(), "1A2");
    assert!(!st.new_input);
}

#[test]
fn typing_ignores_digits_outside_the_base() {
    let mut st = CalcState::default();
    st.set_base(Base::Oct);
    st.input_digit('7');
    st.input_digit('8');
    st.input_digit('x');
    assert_eq!(st.input_str, "7");
    assert_eq!(st.value, 7);
}

#[test]
fn typing_replaces_a_lone_zero() {
    let st = typed("005");
    assert_eq!(st.input_str, "5");
    assert_eq!(st.value, 5);
}

#[test]
fn typing_past_64_bits_keeps_the_value() {
    let st = typed("FFFFFFFFFFFFFFFF");
    assert_eq!(st.value, u64::MAX);
    let mut st2 = st.clone();
    st2.input_digit('1');
    assert_eq!(st2.input_str.len(), 17);
    assert_eq!(st2.value, u64::MAX);
}

#[test]
fn typing_is_cut_to_the_word() {
    let mut st = CalcState::default();
    st.set_word(WordSize::Byte);
    st.input_digit('1');
    st.input_digit('F');
    st.input_digit('F');
    assert_eq!(st.input_str, "1FF");
    assert_eq!(st.value, 0xFF);
}

fn calc(a: &str, op: Op, b: &str) -> CalcState {
    let mut st = typed(a);
    st.press_op(op);
    for c in b.chars() {
        st.input_digit(c);
    }
    st.press_eq();
    st
}

#[test]
fn arithmetic_operators() {
    assert_eq!(calc("12", Op::Add, "3").value, 0x15);
    assert_eq!(calc("3", Op::Sub, "5").value, u64::MAX - 1);
    assert_eq!(calc("10", Op::Mul, "10").value, 0x100);
    assert_eq!(calc("FF", Op::Div, "10").value, 0xF);
    assert_eq!(calc("FF", Op::Mod, "10").value, 0xF);
    assert_eq!(calc("FFFFFFFFFFFFFFFF", Op::Add, "2").value, 1);
    assert_eq!(calc("FFFFFFFFFFFFFFFF", Op::Mul, "2").value, u64::MAX - 1);
}

#[test]
fn bitwise_operators() {
    assert_eq!(calc("C", Op::And, "A").value, 8);
    assert_eq!(calc("C", Op::Or, "A").value, 0xE);
    assert_eq!(calc("C", Op::Xor, "A").value, 6);
    assert_eq!(calc("1", Op::Lsh, "4").value, 0x10);
    assert_eq!(calc("80", Op::Rsh, "4").value, 8);
    // shift counts are taken modulo the word's bits
    assert_eq!(calc("1", Op::Lsh, "41").value, 2);
}

#[test]
fn shifts_in_a_byte() {
    let mut st = CalcState::default();
    st.set_word(WordSize::Byte);
    st.input_digit('1');
    st.press_op(Op::Lsh);
    st.input_digit('9');
    st.press_eq();
    assert_eq!(st.value, 2);
    st.press_op(Op::Lsh);
    st.input_digit('7');
    st.press_eq();
    assert_eq!(st.value, 0);
}

#[test]
fn division_by_zero_is_an_error() {
    let st = calc("12", Op::Div, "0");
    assert!(st.error);
    assert_eq!(st.display_value(), "Error");
    assert_eq!(st.display_grouped(), "Error");
    assert_eq!(st.value, 0);
    let st2 = calc("12", Op::Mod, "0");
    assert!(st2.error);
}

#[test]
fn error_blocks_typing_until_cleared() {
    let mut st = calc("12", Op::Div, "0");
    st.input_digit('5');
    st.press_op(Op::Add);
    st.press_eq();
    st.press_back();
    assert!(st.error);
    assert_eq!(st.operator, None);
    st.press_ce();
    assert!(!st.error);
    assert_eq!(st.value, 0);
    assert_eq!(st.input_str, "0");
    st.input_digit('5');
    assert_eq!(st.value, 5);
}

#[test]
fn chained_operators_apply_the_pending_one() {
    let mut st = typed("2");
    st.press_op(Op::Add);
    st.input_digit('3');
    st.press_op(Op::Mul);
    assert_eq!(st.value, 5);
    assert_eq!(st.prev, 5);
    assert_eq!(st.operator, Some(Op::Mul));
    st.input_digit('4');
    st.press_eq();
    assert_eq!(st.value, 0x14);
    assert_eq!(st.operator, None);
}

#[test]
fn pressing_two_operators_replaces_the_first() {
    let mut st = typed("6");
    st.press_op(Op::Add);
    st.press_op(Op::Sub);
    assert_eq!(st.operator, Some(Op::Sub));
    assert_eq!(st.prev, 6);
    st.input_digit('2');
    st.press_eq();
    assert_eq!(st.value, 4);
}

#[test]
fn equals_without_operator_does_nothing() {
    let mut st = typed("7");
    st.press_eq();
    assert_eq!(st.value, 7);
    assert!(!st.new_input);
}

#[test]
fn clear_all_resets() {
    let mut st = typed("7");
    st.set_base(Base::Dec);
    st.press_op(Op::Add);
    st.press_c();
    assert_eq!(st.value, 0);
    assert_eq!(st.prev, 0);
    assert_eq!(st.operator, None);
    assert_eq!(st.input_str, "0");
    assert!(st.new_input);
    assert!(!st.error);
    assert_eq!(st.base, Base::Dec);
}

#[test]
fn backspace_rereads_the_text() {
    let mut st = typed("123");
    st.press_back();
    assert_eq!(st.input_str, "12");
    assert_eq!(st.value, 0x12);
    st.press_back();
    st.press_back();
    assert_eq!(st.input_str, "0");
    assert_eq!(st.value, 0);
    // nothing happens while a new number is due
    let mut st2 = typed("5");
    st2.press_op(Op::Add);
    st2.press_back();
    assert_eq!(st2.input_str, "5");
    assert_eq!(st2.value, 5);
}

#[test]
fn backspace_on_unreadable_text_gives_zero() {
    let mut st = typed("12");
    st.input_str = String::from("x12");
    st.press_back();
    assert_eq!(st.input_str, "x1");
    assert_eq!(st.value, 0);
}

#[test]
fn negate_complement_and_rotations() {
    let mut st = typed("1");
    st.press_negate();
    assert_eq!(st.value, u64::MAX);
    assert_eq!(st.signed_value(), -1);
    st.press_negate();
    assert_eq!(st.value, 1);
    st.press_not();
    assert_eq!(st.value, u64::MAX - 1);
    assert!(st.new_input);

    let mut b = CalcState::default();
    b.set_word(WordSize::Byte);
    b.input_digit('8');
    b.input_digit('1');
    b.press_rol();
    assert_eq!(b.value, 0x03);
    b.press_ror();
    assert_eq!(b.value, 0x81);
    b.press_ror();
    assert_eq!(b.value, 0xC0);
    b.press_not();
    assert_eq!(b.value, 0x3F);
    b.press_negate();
    assert_eq!(b.value, 0xC1);
}

#[test]
fn negate_zero_is_zero() {
    let mut st = CalcState::default();
    st.set_word(WordSize::Word);
    st.press_negate();
    assert_eq!(st.value, 0);
}

#[test]
fn rotations_in_a_qword() {
    let mut st = typed("8000000000000001");
    st.press_rol();
    assert_eq!(st.value, 3);
    st.press_ror();
    st.press_ror();
    assert_eq!(st.value, 0xC000_0000_0000_0000);
}

#[test]
fn word_change_cuts_the_value() {
    let mut st = typed("12345");
    st.set_word(WordSize::Word);
    assert_eq!(st.value, 0x2345);
    st.set_word(WordSize::Byte);
    assert_eq!(st.value, 0x45);
    st.set_word(WordSize::QWord);
    assert_eq!(st.value, 0x45);
    assert!(st.new_input);
}

#[test]
fn toggle_bits_inside_the_word_only() {
    let mut st = CalcState::default();
    st.set_word(WordSize::Byte);
    st.toggle_bit(7);
    assert_eq!(st.value, 0x80);
    st.toggle_bit(8);
    assert_eq!(st.value, 0x80);
    st.toggle_bit(7);
    assert_eq!(st.value, 0);
}

#[test]
fn signed_values() {
    let mut st = typed("80");
    st.set_word(WordSize::Byte);
    assert_eq!(st.signed_value(), -128);
    st.set_base(Base::Dec);
    assert_eq!(st.display_value(), "-128");
    let st2 = typed("7F");
    assert_eq!(st2.signed_value(), 127);
    let st3 = typed("8000000000000000");
    assert_eq!(st3.signed_value(), i64::MIN);
    assert_eq!(st3.value_in(Base::Dec), "-9223372036854775808");
    assert_eq!(signed_in(0xFFFF, WordSize::Word), -1);
    assert_eq!(signed_in(0x7FFF_FFFF, WordSize::DWord), 0x7FFF_FFFF);
}

#[test]
fn value_in_every_base() {
    let st = typed("FF");
    assert_eq!(st.value_in(Base::Hex), "FF");
    assert_eq!(st.value_in(Base::Dec), "255");
    assert_eq!(st.value_in(Base::Oct), "377");
    assert_eq!(st.value_in(Base::Bin), "11111111");
    let z = CalcState::default();
    assert_eq!(z.value_in(Base::Bin), "0");
    assert_eq!(format_value(0x1FF, Base::Hex, WordSize::Byte), "FF");
}

#[test]
fn grouped_display() {
    let st = typed("12345");
    assert_eq!(st.display_grouped(), "1 2345");
    let mut b = typed("A5");
    b.set_base(Base::Bin);
    assert_eq!(b.display_value(), "10100101");
    assert_eq!(b.display_grouped(), "1010 0101");
    let mut d = typed("12345");
    d.set_base(Base::Dec);
    assert_eq!(d.display_grouped(), "74565");
    let mut o = typed("12345");
    o.set_base(Base::Oct);
    assert_eq!(o.display_grouped(), "221505");
    let e = typed("1234");
    assert_eq!(e.display_grouped(), "1234");
}

#[test]
fn base_change_keeps_the_value() {
    let mut st = typed("1F");
    st.set_base(Base::Dec);
    assert_eq!(st.value, 0x1F);
    assert_eq!(st.display_value(), "31");
    assert!(st.new_input);
    st.input_digit('9');
    assert_eq!(st.value, 9);
}
