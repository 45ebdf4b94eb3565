use progcalc::frontend::App;
use progcalc::radix::{format_unsigned, group_by_four, parse_u64};
use progcalc::state::{Base, CalcState, Op, WordSize};

fn state(word: WordSize, value: u64) -> CalcState {
    let mut st = CalcState::default();
    st.set_word(word);
    st.value = value & word.mask();
    st
}

const WORDS: [WordSize; 4] = [WordSize::QWord, WordSize::DWord, WordSize::Word, WordSize::Byte];
const SAMPLES: [u64; 6] = [0, 1, 0x80, 0x8001, 0xDEAD_BEEF, u64::MAX];

#[test]
fn every_press_keeps_the_value_in_the_word() {
    for &w in WORDS.iter() {
        for &v in SAMPLES.iter() {
            let mut st = state(w, v);
            st.press_rol();
            assert!(st.value <= w.mask());
            st.press_negate();
            assert!(st.value <= w.mask());
            st.press_not();
            assert!(st.value <= w.mask());
            st.toggle_bit(w.bits() - 1);
            assert!(st.value <= w.mask());
            st.press_op(Op::Mul);
            st.input_digit('F');
            st.input_digit('F');
            st.press_eq();
            assert!(st.value <= w.mask());
        }
    }
}

#[test]
fn rotations_undo_each_other() {
    for &w in WORDS.iter() {
        for &v in SAMPLES.iter() {
            let mut st = state(w, v);
            let start = st.value;
            st.press_rol();
            st.press_ror();
            assert_eq!(st.value, start);
            st.press_ror();
            st.press_rol();
            assert_eq!(st.value, start);
        }
    }
}

#[test]
fn complement_and_negation_undo_themselves() {
    for &w in WORDS.iter() {
        for &v in SAMPLES.iter() {
            let mut st = state(w, v);
            let start = st.value;
            st.press_not();
            st.press_not();
            assert_eq!(st.value, start);
            st.press_negate();
            st.press_negate();
            assert_eq!(st.value, start);
        }
    }
}

#[test]
fn toggling_a_bit_twice_undoes_it() {
    let mut st = state(WordSize::DWord, 0x1234);
    st.toggle_bit(31);
    st.toggle_bit(31);
    assert_eq!(st.value, 0x1234);
}

#[test]
fn error_holds_until_cleared() {
    let mut st = CalcState::default();
    st.input_digit('5');
    st.press_op(Op::Mod);
    st.input_digit('0');
    st.press_eq();
    assert!(st.error);
    st.press_not();
    st.set_base(Base::Bin);
    st.toggle_bit(3);
    assert!(st.error);
    st.press_c();
    assert!(!st.error);
}

#[test]
fn clear_keeps_base_and_word_only() {
    let mut st = state(WordSize::Word, 0x99);
    st.set_base(Base::Oct);
    st.press_op(Op::Xor);
    st.press_c();
    let fresh = CalcState::default();
    assert_eq!(st.value, fresh.value);
    assert_eq!(st.prev, fresh.prev);
    assert_eq!(st.input_str, fresh.input_str);
    assert_eq!(st.operator, fresh.operator);
    assert_eq!(st.new_input, fresh.new_input);
    assert_eq!(st.error, fresh.error);
    assert_eq!(st.base, Base::Oct);
    assert_eq!(st.word, WordSize::Word);
}

#[test]
fn displays_read_back() {
    for &w in WORDS.iter() {
        for &v in SAMPLES.iter() {
            let mut st = state(w, v);
            for &(b, r) in [(Base::Hex, 16u32), (Base::Oct, 8), (Base::Bin, 2)].iter() {
                st.set_base(b);
                assert_eq!(parse_u64(&st.display_value(), r), Some(st.value));
                assert_eq!(st.display_grouped().replace(' ', ""), st.display_value());
            }
        }
    }
}

#[test]
fn signed_reading_agrees_with_the_value() {
    for &w in WORDS.iter() {
        for &v in SAMPLES.iter() {
            let st = state(w, v);
            let s = st.signed_value() as i128;
            let modulus = 1i128 << w.bits();
            assert!(-(modulus / 2) <= s && s < modulus / 2);
            assert_eq!((s + modulus) % modulus, st.value as i128);
        }
    }
}

#[test]
fn grouping_only_adds_spaces() {
    for &n in [0u64, 0xF, 0x12345, u64::MAX].iter() {
        let t = format_unsigned(n, 2);
        assert_eq!(group_by_four(&t).replace(' ', ""), t);
    }
}

#[test]
fn history_never_exceeds_its_limit() {
    let mut app = App::new();
    for _ in 0..20 {
        app.dispatch("1");
        app.dispatch("ADD");
        app.dispatch("1");
        app.dispatch("ADD");
        assert!(app.history.len() <= 8);
    }
    assert_eq!(app.history.len(), 8);
}

#[test]
fn panel_toggles_change_nothing_else() {
    let mut app = App::new();
    app.dispatch("7");
    app.dispatch("ADD");
    app.dispatch("TOGGLE_BITS");
    app.dispatch("TOGGLE_BITS");
    assert!(!app.show_bits);
    assert_eq!(app.st.value, 7);
    assert_eq!(app.st.operator, Some(Op::Add));
    assert!(app.pending.is_some());
}

#[test]
fn backspace_undoes_typing() {
    let mut st = CalcState::default();
    st.input_digit('4');
    st.input_digit('2');
    let text = st.input_str.clone();
    let value = st.value;
    st.input_digit('7');
    st.press_back();
    assert_eq!(st.input_str, text);
    assert_eq!(st.value, value);
}

#[test]
fn rotating_through_the_word_gives_the_value_back() {
    for &w in WORDS.iter() {
        for &v in SAMPLES.iter() {
            let mut st = state(w, v);
            let start = st.value;
            for _ in 0..w.bits() {
                st.press_rol();
                assert_eq!(st.value.count_ones(), start.count_ones());
            }
            assert_eq!(st.value, start);
            st.press_ror();
            assert_eq!(st.value.count_ones(), start.count_ones());
        }
    }
}

#[test]
fn display_text_shape() {
    for &w in WORDS.iter() {
        for &v in SAMPLES.iter() {
            let mut st = state(w, v);
            for &b in [Base::Hex, Base::Dec, Base::Oct, Base::Bin].iter() {
                st.set_base(b);
                let d = st.display_value();
                assert!(!d.chars().any(|c| c.is_ascii_lowercase()));
                assert!(d == "0" || (!d.starts_with('0') && !d.starts_with("-0")));
                if b == Base::Dec {
                    assert_eq!(d.parse::<i64>(), Ok(st.signed_value()));
                }
            }
        }
    }
}

#[test]
fn grouping_shape() {
    for len in 1..=20usize {
        let s: String = "123456789ABCDEF0123456789".chars().take(len).collect();
        let g = group_by_four(&s);
        assert_eq!(g.chars().count(), len + (len - 1) / 4);
        let groups: Vec<&str> = g.split(' ').collect();
        assert!(groups[0].len() >= 1 && groups[0].len() <= 4);
        assert!(groups[1..].iter().all(|x| x.len() == 4));
    }
}

#[test]
fn backspace_undoes_typing_after_a_lone_zero() {
    let mut st = CalcState::default();
    st.input_digit('0');
    assert_eq!(st.input_str, "0");
    st.input_digit('5');
    st.press_back();
    assert_eq!(st.input_str, "0");
    assert_eq!(st.value, 0);
}
