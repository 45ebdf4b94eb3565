use progcalc::frontend::{
    button_class, op_of_action, App, BitHit, BtnHit, ButtonClass, ExprEntry, Key, KeyInput,
    MouseInput, ToggleHit, ToggleId, HISTORY_LEN,
};
use progcalc::state::{Base, Op, WordSize};

fn press(app: &mut App, actions: &[&str]) {
    for a in actions {
        app.dispatch(a);
    }
}

fn key(c: char) -> KeyInput {
    KeyInput { code: Key::Char(c), ctrl: false, press: true }
}

#[test]
fn new_app_is_empty() {
    let app = App::new();
    assert_eq!(app.st.value, 0);
    assert!(app.history.is_empty());
    assert!(app.pending.is_none());
    assert!(!app.show_history && !app.show_bits && !app.show_bitwise);
    assert!(app.btn_hits.is_empty() && app.bit_hits.is_empty() && app.toggle_hits.is_empty());
}

#[test]
fn raw_sends_buttons_to_the_calculator() {
    let mut app = App::new();
    app.raw("BASE10");
    assert_eq!(app.st.base, Base::Dec);
    app.raw("WORD8");
    assert_eq!(app.st.word, WordSize::Byte);
    app.raw("7");
    app.raw("NEG");
    assert_eq!(app.st.value, 0xF9);
    app.raw("NOT");
    assert_eq!(app.st.value, 6);
    app.raw("ROL");
    assert_eq!(app.st.value, 12);
    app.raw("ROR");
    assert_eq!(app.st.value, 6);
    app.raw("BOGUS");
    assert_eq!(app.st.value, 6);
    app.raw("CLR");
    assert_eq!(app.st.value, 0);
    // a hex letter is typed only where the base allows it
    app.raw("A");
    assert_eq!(app.st.value, 0);
    app.raw("BASE16");
    app.raw("a");
    assert_eq!(app.st.value, 0xA);
}

#[test]
fn expression_history() {
    let mut app = App::new();
    press(&mut app, &["1", "ADD", "2"]);
    let p = app.pending.as_ref().unwrap();
    assert_eq!(p.lhs, "1");
    assert_eq!(p.op, "+");
    assert!(!p.complete);
    press(&mut app, &["EQ"]);
    assert!(app.pending.is_none());
    assert_eq!(app.history.len(), 1);
    let e = &app.history[0];
    assert_eq!((e.lhs.as_str(), e.op.as_str(), e.rhs.as_str(), e.result.as_str()), ("1", "+", "2", "3"));
    assert!(e.complete);
    assert_eq!(e.line(), "  1 + 2 = 3");
}

#[test]
fn chained_operator_records_the_partial_expression() {
    let mut app = App::new();
    press(&mut app, &["2", "ADD", "3", "MUL"]);
    assert_eq!(app.history.len(), 1);
    assert_eq!(app.history[0].line(), "  2 +");
    assert_eq!(app.history[0].rhs, "3");
    assert!(!app.history[0].complete);
    let p = app.pending.as_ref().unwrap();
    assert_eq!(p.lhs, "3");
    assert_eq!(p.op, "×");
    assert_eq!(app.st.value, 5);
    press(&mut app, &["4", "EQ"]);
    assert_eq!(app.st.value, 0x14);
    assert_eq!(app.history[1].line(), "  3 × 4 = 14");
}

#[test]
fn history_keeps_the_last_eight() {
    let mut app = App::new();
    for i in 0..10u64 {
        let d = format!("{:X}", i);
        press(&mut app, &[d.as_str(), "ADD", "1", "EQ"]);
    }
    assert_eq!(app.history.len(), HISTORY_LEN);
    assert_eq!(app.history[0].lhs, "2");
    assert_eq!(app.history[7].lhs, "9");
    assert_eq!(app.history[7].result, "A");
}

#[test]
fn push_hist_drops_the_oldest() {
    let mut app = App::new();
    for i in 0..9 {
        app.push_hist(ExprEntry {
            lhs: format!("{}", i),
            op: String::new(),
            rhs: String::new(),
            result: String::new(),
            complete: false,
        });
    }
    assert_eq!(app.history.len(), 8);
    assert_eq!(app.history[0].lhs, "1");
    assert_eq!(app.history[7].lhs, "8");
}

#[test]
fn clear_drops_the_pending_expression() {
    let mut app = App::new();
    press(&mut app, &["5", "SUB"]);
    assert!(app.pending.is_some());
    press(&mut app, &["CE"]);
    assert!(app.pending.is_none());
    press(&mut app, &["5", "SUB", "CLR"]);
    assert!(app.pending.is_none());
    assert_eq!(app.st.operator, None);
}

#[test]
fn toggles() {
    let mut app = App::new();
    press(&mut app, &["TOGGLE_HISTORY", "TOGGLE_BITS", "TOGGLE_BITWISE"]);
    assert!(app.show_history && app.show_bits && app.show_bitwise);
    press(&mut app, &["TOGGLE_HISTORY", "TOGGLE_BITS", "TOGGLE_BITWISE"]);
    assert!(!app.show_history && !app.show_bits && !app.show_bitwise);
    assert_eq!(app.st.value, 0);
}

#[test]
fn fmt_uses_base_and_word() {
    let mut app = App::new();
    press(&mut app, &["BASE10", "WORD8"]);
    assert_eq!(App::fmt(&app.st, 0xFF), "-1");
    assert_eq!(App::fmt(&app.st, 0x17F), "127");
}

#[test]
fn keys() {
    let mut app = App::new();
    assert!(app.handle_key(key('1')));
    assert!(app.handle_key(key('a')));
    assert_eq!(app.st.value, 0x1A);
    assert!(app.handle_key(key('+')));
    assert!(app.handle_key(key('2')));
    assert!(app.handle_key(KeyInput { code: Key::Enter, ctrl: false, press: true }));
    assert_eq!(app.st.value, 0x1C);
    assert_eq!(app.history.len(), 1);
    assert!(app.handle_key(key('b')));
    assert!(app.show_bits);
    assert_eq!(app.st.value, 0x1C);
    assert!(app.handle_key(key('H')));
    assert!(app.show_history);
    assert!(app.handle_key(key('w')));
    assert!(app.show_bitwise);
    assert!(app.handle_key(key('5')));
    assert!(app.handle_key(KeyInput { code: Key::Backspace, ctrl: false, press: true }));
    assert_eq!(app.st.value, 0);
    assert!(app.handle_key(key('7')));
    assert!(app.handle_key(KeyInput { code: Key::Delete, ctrl: false, press: true }));
    assert_eq!(app.st.value, 0);
    // releases are ignored
    assert!(app.handle_key(KeyInput { code: Key::Char('9'), ctrl: false, press: false }));
    assert_eq!(app.st.value, 0);
    assert!(app.handle_key(key('c')));
    assert_eq!(app.st.value, 0xC);
    assert!(!app.handle_key(KeyInput { code: Key::Char('c'), ctrl: true, press: true }));
    assert!(!app.handle_key(key('q')));
    assert!(!app.handle_key(KeyInput { code: Key::Esc, ctrl: false, press: true }));
    assert!(app.handle_key(KeyInput { code: Key::Other, ctrl: false, press: true }));
}

#[test]
fn key_operators() {
    let cases = [('-', Op::Sub), ('*', Op::Mul), ('/', Op::Div), ('%', Op::Mod), ('&', Op::And), ('|', Op::Or), ('^', Op::Xor)];
    for (c, op) in cases.iter() {
        let mut app = App::new();
        app.handle_key(key('8'));
        app.handle_key(key(*c));
        assert_eq!(app.st.operator, Some(*op));
        app.handle_key(key('='));
        assert_eq!(app.st.operator, None);
    }
}

#[test]
fn mouse_clicks() {
    let mut app = App::new();
    app.toggle_hits.push(ToggleHit { x1: 0, y1: 0, x2: 9, y2: 0, id: ToggleId::History });
    app.btn_hits.push(BtnHit { x1: 0, y1: 0, x2: 9, y2: 5, action: "7" });
    app.btn_hits.push(BtnHit { x1: 10, y1: 0, x2: 19, y2: 5, action: "NOT" });
    app.bit_hits.push(BitHit { y: 10, x1: 0, x2: 3, bit: 4 });
    // the toolbar chip wins over the button below it
    app.handle_mouse(MouseInput { left_down: true, column: 3, row: 0 });
    assert!(app.show_history);
    assert_eq!(app.st.value, 0);
    app.handle_mouse(MouseInput { left_down: true, column: 3, row: 2 });
    assert_eq!(app.st.value, 7);
    app.handle_mouse(MouseInput { left_down: false, column: 3, row: 2 });
    assert_eq!(app.st.value, 7);
    app.handle_mouse(MouseInput { left_down: true, column: 2, row: 10 });
    assert_eq!(app.st.value, 0x17);
    app.handle_mouse(MouseInput { left_down: true, column: 12, row: 5 });
    assert_eq!(app.st.value, !0x17u64);
    app.handle_mouse(MouseInput { left_down: true, column: 50, row: 50 });
    assert_eq!(app.st.value, !0x17u64);
}

#[test]
fn button_rules() {
    let mut app = App::new();
    assert!(app.button_active("BASE16"));
    assert!(app.button_active("WORD64"));
    assert!(!app.button_active("BASE10"));
    assert!(!app.button_active("WORD8"));
    assert!(!app.button_disabled("F"));
    press(&mut app, &["BASE8", "WORD16"]);
    assert!(app.button_active("BASE8"));
    assert!(app.button_active("WORD16"));
    assert!(app.button_disabled("8"));
    assert!(app.button_disabled("A"));
    assert!(!app.button_disabled("7"));
    assert!(!app.button_disabled("AND"));
    assert!(!app.button_disabled("a"));
    assert!(!app.row_visible(2));
    assert!(!app.row_visible(3));
    assert!(app.row_visible(0));
    app.dispatch("TOGGLE_BITWISE");
    assert!(app.row_visible(2));
}

#[test]
fn button_classes() {
    assert_eq!(button_class("7", false, true), ButtonClass::Disabled);
    assert_eq!(button_class("BASE16", true, false), ButtonClass::Active);
    assert_eq!(button_class("WORD32", false, false), ButtonClass::Badge);
    assert_eq!(button_class("XOR", false, false), ButtonClass::Operator);
    assert_eq!(button_class("BACK", false, false), ButtonClass::Special);
    assert_eq!(button_class("EQ", false, false), ButtonClass::Equals);
    assert_eq!(button_class("7", false, false), ButtonClass::Digit);
    assert_eq!(op_of_action("RSH"), Some(Op::Rsh));
    assert_eq!(op_of_action("rsh"), None);
}

#[test]
fn live_rhs_and_bit_cells() {
    let mut app = App::new();
    press(&mut app, &["5", "ADD"]);
    assert_eq!(app.live_rhs(), "");
    press(&mut app, &["9"]);
    assert_eq!(app.live_rhs(), "9");
    press(&mut app, &["WORD8"]);
    assert_eq!(app.bit_cell(0), 1);
    assert_eq!(app.bit_cell(1), 0);
    assert_eq!(app.bit_cell(3), 1);
    assert_eq!(app.bit_cell(9), 0);
}

#[test]
fn incomplete_line() {
    let e = ExprEntry {
        lhs: "A".to_string(),
        op: "&".to_string(),
        rhs: String::new(),
        result: String::new(),
        complete: false,
    };
    assert_eq!(e.line(), "  A &");
}
