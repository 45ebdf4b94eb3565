//! The calculator's front panel: what a key, a click or a button name does,
//! the expression history, and which buttons show as active or disabled.
use vstd::prelude::*;
use crate::radix::{
    ascii_upper, char_to_string, digit_value, digits_of, format_unsigned, str_eq, to_ascii_upper,
};
use crate::state::{format_value, value_text, Base, CalcModel, CalcState, Op, WordSize};

verus! {

/// The most expressions the history keeps.
pub const HISTORY_LEN: usize = 8;

/// A clickable button: its rectangle on screen and the action it sends.
#[derive(Clone, Copy, Debug)]
pub struct BtnHit {
    pub x1: u16,
    pub y1: u16,
    pub x2: u16,
    pub y2: u16,
    pub action: &'static str,
}

/// A clickable cell of the bit view and the bit it flips.
#[derive(Clone, Copy, Debug)]
pub struct BitHit {
    pub y: u16,
    pub x1: u16,
    pub x2: u16,
    pub bit: u32,
}

/// The panels that the toolbar shows or hides.
#[derive(Clone, Copy, Debug, PartialEq, Eq, Structural)]
pub enum ToggleId {
    History,
    BitView,
    Bitwise,
}

/// A clickable toolbar chip.
#[derive(Clone, Copy, Debug)]
pub struct ToggleHit {
    pub x1: u16,
    pub y1: u16,
    pub x2: u16,
    pub y2: u16,
    pub id: ToggleId,
}

/// One line of the expression history.
#[derive(Clone, Debug)]
pub struct ExprEntry {
    pub lhs: String,
    pub op: String,
    pub rhs: String,
    pub result: String,
    pub complete: bool,
}

/// A history line as the contracts see it.
#[verifier::ext_equal]
pub struct EntryModel {
    pub lhs: Seq<char>,
    pub op: Seq<char>,
    pub rhs: Seq<char>,
    pub result: Seq<char>,
    pub complete: bool,
}

impl View for ExprEntry {
    type V = EntryModel;

    open spec fn view(&self) -> EntryModel {
        EntryModel {
            lhs: self.lhs@,
            op: self.op@,
            rhs: self.rhs@,
            result: self.result@,
            complete: self.complete,
        }
    }
}

/// The front panel's state as the contracts see it; the click regions are
/// left out, as only drawing changes them.
#[verifier::ext_equal]
pub struct AppModel {
    pub st: CalcModel,
    pub history: Seq<EntryModel>,
    pub pending: Option<EntryModel>,
    pub show_history: bool,
    pub show_bits: bool,
    pub show_bitwise: bool,
}

/// The front panel: the calculator, the click regions of the last drawing,
/// the expression history, and which optional panels are shown.
pub struct App {
    pub st: CalcState,
    pub btn_hits: Vec<BtnHit>,
    pub bit_hits: Vec<BitHit>,
    pub toggle_hits: Vec<ToggleHit>,
    pub history: Vec<ExprEntry>,
    pub pending: Option<ExprEntry>,
    pub show_history: bool,
    pub show_bits: bool,
    pub show_bitwise: bool,
}

pub open spec fn entry_opt_view(e: Option<ExprEntry>) -> Option<EntryModel> {
    match e {
        Some(x) => Some(x@),
        None => None,
    }
}

impl View for App {
    type V = AppModel;

    open spec fn view(&self) -> AppModel {
        AppModel {
            st: self.st@,
            history: self.history@.map_values(|e: ExprEntry| e@),
            pending: entry_opt_view(self.pending),
            show_history: self.show_history,
            show_bits: self.show_bits,
            show_bitwise: self.show_bitwise,
        }
    }
}

/// The history after recording `e`: appended at the end, with the oldest
/// line dropped once there are more than `HISTORY_LEN`.
pub open spec fn push_history(h: Seq<EntryModel>, e: EntryModel) -> Seq<EntryModel> {
    let h2 = h.push(e);
    if h2.len() > HISTORY_LEN {
        h2.drop_first()
    } else {
        h2
    }
}

/// The text of `v` in the calculator's base and word, as the history shows it.
pub open spec fn fmt_text(st: CalcModel, v: u64) -> Seq<char> {
    value_text(v, st.base, st.word)
}

/// The operator a button name stands for.
pub open spec fn op_action(a: Seq<char>) -> Option<Op> {
    if a == "ADD"@ {
        Some(Op::Add)
    } else if a == "SUB"@ {
        Some(Op::Sub)
    } else if a == "MUL"@ {
        Some(Op::Mul)
    } else if a == "DIV"@ {
        Some(Op::Div)
    } else if a == "MOD"@ {
        Some(Op::Mod)
    } else if a == "AND"@ {
        Some(Op::And)
    } else if a == "OR"@ {
        Some(Op::Or)
    } else if a == "XOR"@ {
        Some(Op::Xor)
    } else if a == "LSH"@ {
        Some(Op::Lsh)
    } else if a == "RSH"@ {
        Some(Op::Rsh)
    } else {
        None
    }
}

/// What a button name does to the calculator: a single hexadecimal digit is
/// typed; the base, word, operator and editing buttons press their key; any
/// other name does nothing.
pub open spec fn raw_step(st: CalcModel, a: Seq<char>) -> CalcModel {
    if a.len() == 1 && digit_value(a[0], 16) is Some {
        st.input_digit(a[0])
    } else if a == "BASE16"@ {
        st.set_base(Base::Hex)
    } else if a == "BASE10"@ {
        st.set_base(Base::Dec)
    } else if a == "BASE8"@ {
        st.set_base(Base::Oct)
    } else if a == "BASE2"@ {
        st.set_base(Base::Bin)
    } else if a == "WORD64"@ {
        st.set_word(WordSize::QWord)
    } else if a == "WORD32"@ {
        st.set_word(WordSize::DWord)
    } else if a == "WORD16"@ {
        st.set_word(WordSize::Word)
    } else if a == "WORD8"@ {
        st.set_word(WordSize::Byte)
    } else if op_action(a) is Some {
        st.press_op(op_action(a).unwrap())
    } else if a == "EQ"@ {
        st.press_eq()
    } else if a == "CE"@ {
        st.press_ce()
    } else if a == "CLR"@ {
        st.press_c()
    } else if a == "BACK"@ {
        st.press_back()
    } else if a == "NEG"@ {
        st.press_negate()
    } else if a == "NOT"@ {
        st.press_not()
    } else if a == "ROL"@ {
        st.press_rol()
    } else if a == "ROR"@ {
        st.press_ror()
    } else {
        st
    }
}

/// What a button name does to the front panel. The three toggle names show or
/// hide a panel. An operator name records the pending expression in the
/// history when its right operand has been typed, starts a new pending
/// expression with the current value on the left, and presses the operator.
/// `EQ` completes the pending expression, if any, with the right operand and
/// the result, and records it. `CE` and `CLR` drop the pending expression.
/// Every other name goes to the calculator as `raw_step` says.
pub open spec fn dispatch_model(m: AppModel, a: Seq<char>) -> AppModel {
    if a == "TOGGLE_HISTORY"@ {
        AppModel { show_history: !m.show_history, ..m }
    } else if a == "TOGGLE_BITS"@ {
        AppModel { show_bits: !m.show_bits, ..m }
    } else if a == "TOGGLE_BITWISE"@ {
        AppModel { show_bitwise: !m.show_bitwise, ..m }
    } else if op_action(a) is Some {
        let op = op_action(a).unwrap();
        let history = if m.st.operator is Some && !m.st.new_input && m.pending is Some {
            push_history(
                m.history,
                EntryModel { rhs: fmt_text(m.st, m.st.value), ..m.pending.unwrap() },
            )
        } else {
            m.history
        };
        let entry = EntryModel {
            lhs: fmt_text(m.st, m.st.value),
            op: op.label_text(),
            rhs: Seq::empty(),
            result: Seq::empty(),
            complete: false,
        };
        AppModel { st: raw_step(m.st, a), history, pending: Some(entry), ..m }
    } else if a == "EQ"@ {
        let st2 = raw_step(m.st, a);
        match m.pending {
            Some(e) => AppModel {
                st: st2,
                history: push_history(
                    m.history,
                    EntryModel {
                        rhs: fmt_text(m.st, m.st.value),
                        result: fmt_text(st2, st2.value),
                        complete: true,
                        ..e
                    },
                ),
                pending: None,
                ..m
            },
            None => AppModel { st: st2, ..m },
        }
    } else if a == "CE"@ || a == "CLR"@ {
        AppModel { st: raw_step(m.st, a), pending: None, ..m }
    } else {
        AppModel { st: raw_step(m.st, a), ..m }
    }
}

/// The operator a button name stands for.
pub fn op_of_action(a: &str) -> (r: Option<Op>)
    ensures
        r == op_action(a@),
{
    if str_eq(a, "ADD") {
        Some(Op::Add)
    } else if str_eq(a, "SUB") {
        Some(Op::Sub)
    } else if str_eq(a, "MUL") {
        Some(Op::Mul)
    } else if str_eq(a, "DIV") {
        Some(Op::Div)
    } else if str_eq(a, "MOD") {
        Some(Op::Mod)
    } else if str_eq(a, "AND") {
        Some(Op::And)
    } else if str_eq(a, "OR") {
        Some(Op::Or)
    } else if str_eq(a, "XOR") {
        Some(Op::Xor)
    } else if str_eq(a, "LSH") {
        Some(Op::Lsh)
    } else if str_eq(a, "RSH") {
        Some(Op::Rsh)
    } else {
        None
    }
}

impl App {
    pub fn new() -> (a: App)
        ensures
            a@ == (AppModel {
                st: CalcModel::initial(),
                history: Seq::empty(),
                pending: None,
                show_history: false,
                show_bits: false,
                show_bitwise: false,
            }),
            a.btn_hits@.len() == 0,
            a.bit_hits@.len() == 0,
            a.toggle_hits@.len() == 0,
    {
        let a = App {
            st: CalcState::default(),
            btn_hits: Vec::new(),
            bit_hits: Vec::new(),
            toggle_hits: Vec::new(),
            history: Vec::new(),
            pending: None,
            show_history: false,
            show_bits: false,
            show_bitwise: false,
        };
        assert(a.history@.map_values(|e: ExprEntry| e@) =~= Seq::<EntryModel>::empty());
        a
    }

    /// The text of `v` in `st`'s base and word.
    pub fn fmt(st: &CalcState, v: u64) -> (s: String)
        ensures
            s@ == fmt_text(st@, v),
    {
        format_value(v, st.base, st.word)
    }

    /// Records a history line, keeping at most `HISTORY_LEN`.
    pub fn push_hist(&mut self, e: ExprEntry)
        ensures
            final(self)@ == (AppModel { history: push_history(old(self)@.history, e@), ..old(self)@ }),
            final(self).btn_hits == old(self).btn_hits,
            final(self).bit_hits == old(self).bit_hits,
            final(self).toggle_hits == old(self).toggle_hits,
    {
        let ghost h0 = self.history@;
        let ghost ev = e@;
        self.history.push(e);
        assert(self.history@.map_values(|x: ExprEntry| x@) =~= h0.map_values(|x: ExprEntry| x@).push(ev));
        if self.history.len() > HISTORY_LEN {
            let ghost h1 = self.history@;
            self.history.remove(0);
            assert(self.history@.map_values(|x: ExprEntry| x@) =~= h1.map_values(|x: ExprEntry| x@).drop_first());
        }
    }
}


impl App {
    /// Sends a button name straight to the calculator.
    pub fn raw(&mut self, action: &str)
        ensures
            final(self)@ == (AppModel { st: raw_step(old(self)@.st, action@), ..old(self)@ }),
            final(self).btn_hits == old(self).btn_hits,
            final(self).bit_hits == old(self).bit_hits,
            final(self).toggle_hits == old(self).toggle_hits,
    {
        let s = &mut self.st;
        if action.unicode_len() == 1 && Base::Hex.valid_char(action.get_char(0)) {
            s.input_digit(action.get_char(0));
        } else if str_eq(action, "BASE16") {
            s.set_base(Base::Hex);
        } else if str_eq(action, "BASE10") {
            s.set_base(Base::Dec);
        } else if str_eq(action, "BASE8") {
            s.set_base(Base::Oct);
        } else if str_eq(action, "BASE2") {
            s.set_base(Base::Bin);
        } else if str_eq(action, "WORD64") {
            s.set_word(WordSize::QWord);
        } else if str_eq(action, "WORD32") {
            s.set_word(WordSize::DWord);
        } else if str_eq(action, "WORD16") {
            s.set_word(WordSize::Word);
        } else if str_eq(action, "WORD8") {
            s.set_word(WordSize::Byte);
        } else if let Some(op) = op_of_action(action) {
            s.press_op(op);
        } else if str_eq(action, "EQ") {
            s.press_eq();
        } else if str_eq(action, "CE") {
            s.press_ce();
        } else if str_eq(action, "CLR") {
            s.press_c();
        } else if str_eq(action, "BACK") {
            s.press_back();
        } else if str_eq(action, "NEG") {
            s.press_negate();
        } else if str_eq(action, "NOT") {
            s.press_not();
        } else if str_eq(action, "ROL") {
            s.press_rol();
        } else if str_eq(action, "ROR") {
            s.press_ror();
        }
    }

    /// Acts on a button name.
    pub fn dispatch(&mut self, action: &str)
        ensures
            final(self)@ == dispatch_model(old(self)@, action@),
            final(self).btn_hits == old(self).btn_hits,
            final(self).bit_hits == old(self).bit_hits,
            final(self).toggle_hits == old(self).toggle_hits,
    {
        if str_eq(action, "TOGGLE_HISTORY") {
            self.show_history = !self.show_history;
            return;
        }
        if str_eq(action, "TOGGLE_BITS") {
            self.show_bits = !self.show_bits;
            return;
        }
        if str_eq(action, "TOGGLE_BITWISE") {
            self.show_bitwise = !self.show_bitwise;
            return;
        }
        if let Some(op) = op_of_action(action) {
            let op_sym = String::from_str(op.label());
            if self.st.operator.is_some() && !self.st.new_input {
                let mut taken: Option<ExprEntry> = None;
                std::mem::swap(&mut taken, &mut self.pending);
                if let Some(mut e) = taken {
                    e.rhs = Self::fmt(&self.st, self.st.value);
                    self.push_hist(e);
                }
            }
            let lhs = Self::fmt(&self.st, self.st.value);
            self.pending = Some(
                ExprEntry {
                    lhs,
                    op: op_sym,
                    rhs: String::new(),
                    result: String::new(),
                    complete: false,
                },
            );
            self.raw(action);
        } else if str_eq(action, "EQ") {
            let mut taken: Option<ExprEntry> = None;
            std::mem::swap(&mut taken, &mut self.pending);
            if let Some(mut e) = taken {
                e.rhs = Self::fmt(&self.st, self.st.value);
                self.raw(action);
                e.result = Self::fmt(&self.st, self.st.value);
                e.complete = true;
                self.push_hist(e);
            } else {
                self.raw(action);
            }
        } else if str_eq(action, "CE") || str_eq(action, "CLR") {
            self.pending = None;
            self.raw(action);
        } else {
            self.raw(action);
        }
    }
}


/// A key as the front panel reads it.
#[derive(Clone, Copy, Debug, PartialEq, Eq, Structural)]
pub enum Key {
    Char(char),
    Enter,
    Backspace,
    Delete,
    Esc,
    Other,
}

/// A keyboard event: the key, whether Control was held, and whether the key
/// went down (repeats and releases are not presses).
#[derive(Clone, Copy, Debug)]
pub struct KeyInput {
    pub code: Key,
    pub ctrl: bool,
    pub press: bool,
}

/// What a key asks of the front panel.
pub enum KeyOutcome {
    Quit,
    Nothing,
    Send(Seq<char>),
}

/// What a key does: `q`, Esc and Control-`c` quit; `h`, `b`, `w` in either
/// case show or hide a panel; a hexadecimal digit in either case is typed in
/// upper case; `+ - * / % & | ^ =`, Enter, Backspace and Delete press their
/// buttons; anything else, and any event that is not a press, does nothing.
pub open spec fn key_outcome(ev: KeyInput) -> KeyOutcome {
    if !ev.press {
        KeyOutcome::Nothing
    } else {
        match ev.code {
            Key::Char(c) => {
                let cu = ascii_upper(c);
                if c == 'q' {
                    KeyOutcome::Quit
                } else if c == 'c' && ev.ctrl {
                    KeyOutcome::Quit
                } else if c == 'h' || c == 'H' {
                    KeyOutcome::Send("TOGGLE_HISTORY"@)
                } else if c == 'b' || c == 'B' {
                    KeyOutcome::Send("TOGGLE_BITS"@)
                } else if c == 'w' || c == 'W' {
                    KeyOutcome::Send("TOGGLE_BITWISE"@)
                } else if ('0' <= cu && cu <= '9') || ('A' <= cu && cu <= 'F') {
                    KeyOutcome::Send(seq![cu])
                } else if cu == '+' {
                    KeyOutcome::Send("ADD"@)
                } else if cu == '-' {
                    KeyOutcome::Send("SUB"@)
                } else if cu == '*' {
                    KeyOutcome::Send("MUL"@)
                } else if cu == '/' {
                    KeyOutcome::Send("DIV"@)
                } else if cu == '%' {
                    KeyOutcome::Send("MOD"@)
                } else if cu == '&' {
                    KeyOutcome::Send("AND"@)
                } else if cu == '|' {
                    KeyOutcome::Send("OR"@)
                } else if cu == '^' {
                    KeyOutcome::Send("XOR"@)
                } else if cu == '=' {
                    KeyOutcome::Send("EQ"@)
                } else {
                    KeyOutcome::Nothing
                }
            },
            Key::Esc => KeyOutcome::Quit,
            Key::Enter => KeyOutcome::Send("EQ"@),
            Key::Backspace => KeyOutcome::Send("BACK"@),
            Key::Delete => KeyOutcome::Send("CE"@),
            Key::Other => KeyOutcome::Nothing,
        }
    }
}

impl App {
    /// Acts on a key; returns false when the key asks to quit.
    pub fn handle_key(&mut self, ev: KeyInput) -> (keep_running: bool)
        ensures
            match key_outcome(ev) {
                KeyOutcome::Quit => !keep_running && final(self)@ == old(self)@,
                KeyOutcome::Nothing => keep_running && final(self)@ == old(self)@,
                KeyOutcome::Send(a) => keep_running && final(self)@ == dispatch_model(old(self)@, a),
            },
            final(self).btn_hits == old(self).btn_hits,
            final(self).bit_hits == old(self).bit_hits,
            final(self).toggle_hits == old(self).toggle_hits,
    {
        if !ev.press {
            return true;
        }
        match ev.code {
            Key::Char(c) => {
                if c == 'q' || (c == 'c' && ev.ctrl) {
                    return false;
                }
                if c == 'h' || c == 'H' {
                    self.dispatch("TOGGLE_HISTORY");
                } else if c == 'b' || c == 'B' {
                    self.dispatch("TOGGLE_BITS");
                } else if c == 'w' || c == 'W' {
                    self.dispatch("TOGGLE_BITWISE");
                } else {
                    let cu = to_ascii_upper(c);
                    if ('0' <= cu && cu <= '9') || ('A' <= cu && cu <= 'F') {
                        let d = char_to_string(cu);
                        self.dispatch(d.as_str());
                    } else if cu == '+' {
                        self.dispatch("ADD");
                    } else if cu == '-' {
                        self.dispatch("SUB");
                    } else if cu == '*' {
                        self.dispatch("MUL");
                    } else if cu == '/' {
                        self.dispatch("DIV");
                    } else if cu == '%' {
                        self.dispatch("MOD");
                    } else if cu == '&' {
                        self.dispatch("AND");
                    } else if cu == '|' {
                        self.dispatch("OR");
                    } else if cu == '^' {
                        self.dispatch("XOR");
                    } else if cu == '=' {
                        self.dispatch("EQ");
                    }
                }
            },
            Key::Esc => {
                return false;
            },
            Key::Enter => {
                self.dispatch("EQ");
            },
            Key::Backspace => {
                self.dispatch("BACK");
            },
            Key::Delete => {
                self.dispatch("CE");
            },
            Key::Other => {},
        }
        true
    }
}


/// A mouse event: whether the left button went down, and where.
#[derive(Clone, Copy, Debug)]
pub struct MouseInput {
    pub left_down: bool,
    pub column: u16,
    pub row: u16,
}

/// Whether the point lies in the rectangle, borders included.
pub open spec fn in_rect(x1: u16, y1: u16, x2: u16, y2: u16, x: u16, y: u16) -> bool {
    y >= y1 && y <= y2 && x >= x1 && x <= x2
}

/// The first toolbar chip under the point.
pub open spec fn toggle_at(hits: Seq<ToggleHit>, x: u16, y: u16) -> Option<ToggleId>
    decreases hits.len(),
{
    if hits.len() == 0 {
        None
    } else if in_rect(hits[0].x1, hits[0].y1, hits[0].x2, hits[0].y2, x, y) {
        Some(hits[0].id)
    } else {
        toggle_at(hits.drop_first(), x, y)
    }
}

/// The action of the first button under the point.
pub open spec fn button_at(hits: Seq<BtnHit>, x: u16, y: u16) -> Option<Seq<char>>
    decreases hits.len(),
{
    if hits.len() == 0 {
        None
    } else if in_rect(hits[0].x1, hits[0].y1, hits[0].x2, hits[0].y2, x, y) {
        Some(hits[0].action@)
    } else {
        button_at(hits.drop_first(), x, y)
    }
}

/// The bit of the first bit-view cell under the point.
pub open spec fn bit_at(hits: Seq<BitHit>, x: u16, y: u16) -> Option<u32>
    decreases hits.len(),
{
    if hits.len() == 0 {
        None
    } else if y == hits[0].y && x >= hits[0].x1 && x <= hits[0].x2 {
        Some(hits[0].bit)
    } else {
        bit_at(hits.drop_first(), x, y)
    }
}

/// The button name of a toolbar chip.
pub open spec fn toggle_name(id: ToggleId) -> Seq<char> {
    match id {
        ToggleId::History => "TOGGLE_HISTORY"@,
        ToggleId::BitView => "TOGGLE_BITS"@,
        ToggleId::Bitwise => "TOGGLE_BITWISE"@,
    }
}

/// What a click does: a toolbar chip under it wins, then a button, then a
/// bit-view cell, whose bit is flipped; only a left press counts.
pub open spec fn click_model(
    m: AppModel,
    toggles: Seq<ToggleHit>,
    buttons: Seq<BtnHit>,
    bits: Seq<BitHit>,
    ev: MouseInput,
) -> AppModel {
    if !ev.left_down {
        m
    } else if toggle_at(toggles, ev.column, ev.row) is Some {
        dispatch_model(m, toggle_name(toggle_at(toggles, ev.column, ev.row).unwrap()))
    } else if button_at(buttons, ev.column, ev.row) is Some {
        dispatch_model(m, button_at(buttons, ev.column, ev.row).unwrap())
    } else if bit_at(bits, ev.column, ev.row) is Some {
        AppModel { st: m.st.toggle_bit(bit_at(bits, ev.column, ev.row).unwrap()), ..m }
    } else {
        m
    }
}

impl App {
    /// Acts on a mouse event, using the click regions of the last drawing.
    pub fn handle_mouse(&mut self, ev: MouseInput)
        ensures
            final(self)@ == click_model(
                old(self)@,
                old(self).toggle_hits@,
                old(self).btn_hits@,
                old(self).bit_hits@,
                ev,
            ),
            final(self).btn_hits == old(self).btn_hits,
            final(self).bit_hits == old(self).bit_hits,
            final(self).toggle_hits == old(self).toggle_hits,
    {
        if !ev.left_down {
            return;
        }
        let mx = ev.column;
        let my = ev.row;
        let ghost toggles = self.toggle_hits@;
        let ghost buttons = self.btn_hits@;
        let ghost bits = self.bit_hits@;
        let mut i: usize = 0;
        assert(toggles.skip(0) =~= toggles);
        assert(buttons.skip(0) =~= buttons);
        assert(bits.skip(0) =~= bits);
        while i < self.toggle_hits.len()
            invariant
                ev.left_down,
                mx == ev.column,
                my == ev.row,
                self.toggle_hits@ == toggles,
                self.btn_hits@ == buttons,
                self.bit_hits@ == bits,
                self@ == old(self)@,
                self.toggle_hits == old(self).toggle_hits,
                self.btn_hits == old(self).btn_hits,
                self.bit_hits == old(self).bit_hits,
                i <= toggles.len(),
                toggle_at(toggles, mx, my) == toggle_at(toggles.skip(i as int), mx, my),
            decreases toggles.len() - i,
        {
            let h = self.toggle_hits[i];
            assert(toggles.skip(i as int)[0] == h);
            assert(toggles.skip(i as int).drop_first() =~= toggles.skip(i + 1));
            if my >= h.y1 && my <= h.y2 && mx >= h.x1 && mx <= h.x2 {
                assert(toggle_at(toggles, mx, my) == Some(h.id));
                match h.id {
                    ToggleId::History => self.dispatch("TOGGLE_HISTORY"),
                    ToggleId::BitView => self.dispatch("TOGGLE_BITS"),
                    ToggleId::Bitwise => self.dispatch("TOGGLE_BITWISE"),
                }
                return;
            }
            i = i + 1;
        }
        assert(toggles.skip(i as int).len() == 0);
        let mut j: usize = 0;
        while j < self.btn_hits.len()
            invariant
                ev.left_down,
                mx == ev.column,
                my == ev.row,
                self.toggle_hits@ == toggles,
                self.btn_hits@ == buttons,
                self.bit_hits@ == bits,
                self@ == old(self)@,
                self.toggle_hits == old(self).toggle_hits,
                self.btn_hits == old(self).btn_hits,
                self.bit_hits == old(self).bit_hits,
                toggle_at(toggles, mx, my) is None,
                j <= buttons.len(),
                button_at(buttons, mx, my) == button_at(buttons.skip(j as int), mx, my),
            decreases buttons.len() - j,
        {
            let h = self.btn_hits[j];
            assert(buttons.skip(j as int)[0] == h);
            assert(buttons.skip(j as int).drop_first() =~= buttons.skip(j + 1));
            if my >= h.y1 && my <= h.y2 && mx >= h.x1 && mx <= h.x2 {
                assert(button_at(buttons, mx, my) == Some(h.action@));
                self.dispatch(h.action);
                return;
            }
            j = j + 1;
        }
        assert(buttons.skip(j as int).len() == 0);
        let mut k: usize = 0;
        while k < self.bit_hits.len()
            invariant
                ev.left_down,
                mx == ev.column,
                my == ev.row,
                self.toggle_hits@ == toggles,
                self.btn_hits@ == buttons,
                self.bit_hits@ == bits,
                self@ == old(self)@,
                self.toggle_hits == old(self).toggle_hits,
                self.btn_hits == old(self).btn_hits,
                self.bit_hits == old(self).bit_hits,
                toggle_at(toggles, mx, my) is None,
                button_at(buttons, mx, my) is None,
                k <= bits.len(),
                bit_at(bits, mx, my) == bit_at(bits.skip(k as int), mx, my),
            decreases bits.len() - k,
        {
            let h = self.bit_hits[k];
            assert(bits.skip(k as int)[0] == h);
            assert(bits.skip(k as int).drop_first() =~= bits.skip(k + 1));
            if my == h.y && mx >= h.x1 && mx <= h.x2 {
                assert(bit_at(bits, mx, my) == Some(h.bit));
                self.st.toggle_bit(h.bit);
                return;
            }
            k = k + 1;
        }
        assert(bits.skip(k as int).len() == 0);
    }
}


/// How a button is coloured.
#[derive(Clone, Copy, Debug, PartialEq, Eq, Structural)]
pub enum ButtonClass {
    Disabled,
    Active,
    Badge,
    Operator,
    Special,
    Equals,
    Digit,
}

/// The colour class of a button: disabled and active buttons first, then by
/// the kind of action.
pub open spec fn button_class_spec(a: Seq<char>, active: bool, disabled: bool) -> ButtonClass {
    if disabled {
        ButtonClass::Disabled
    } else if active {
        ButtonClass::Active
    } else if a == "WORD64"@ || a == "WORD32"@ || a == "WORD16"@ || a == "WORD8"@ || a
        == "BASE16"@ || a == "BASE10"@ || a == "BASE8"@ || a == "BASE2"@ {
        ButtonClass::Badge
    } else if op_action(a) is Some {
        ButtonClass::Operator
    } else if a == "CE"@ || a == "CLR"@ || a == "NEG"@ || a == "NOT"@ || a == "ROL"@ || a == "ROR"@
        || a == "BACK"@ {
        ButtonClass::Special
    } else if a == "EQ"@ {
        ButtonClass::Equals
    } else {
        ButtonClass::Digit
    }
}

/// The colour class of the button with action `action`.
pub fn button_class(action: &str, active: bool, disabled: bool) -> (c: ButtonClass)
    ensures
        c == button_class_spec(action@, active, disabled),
{
    if disabled {
        ButtonClass::Disabled
    } else if active {
        ButtonClass::Active
    } else if str_eq(action, "WORD64") || str_eq(action, "WORD32") || str_eq(action, "WORD16")
        || str_eq(action, "WORD8") || str_eq(action, "BASE16") || str_eq(action, "BASE10") || str_eq(
        action,
        "BASE8",
    ) || str_eq(action, "BASE2") {
        ButtonClass::Badge
    } else if op_of_action(action).is_some() {
        ButtonClass::Operator
    } else if str_eq(action, "CE") || str_eq(action, "CLR") || str_eq(action, "NEG") || str_eq(
        action,
        "NOT",
    ) || str_eq(action, "ROL") || str_eq(action, "ROR") || str_eq(action, "BACK") {
        ButtonClass::Special
    } else if str_eq(action, "EQ") {
        ButtonClass::Equals
    } else {
        ButtonClass::Digit
    }
}

/// An upper-case hexadecimal digit, as the digit buttons are labelled.
pub open spec fn is_digit_label(c: char) -> bool {
    ('0' <= c && c <= '9') || ('A' <= c && c <= 'F')
}

/// Whether a button name selects the current base or word size: `BASE` or
/// `WORD` followed by the radix or the bits in decimal.
pub open spec fn active_name(st: CalcModel, a: Seq<char>) -> bool {
    a == "BASE"@ + digits_of(st.base.radix_spec() as nat, 10) || a == "WORD"@ + digits_of(
        st.word.bits_spec() as nat,
        10,
    )
}

/// Whether a digit button is greyed out: its label is a single upper-case
/// hexadecimal digit that is no digit of the current base.
pub open spec fn disabled_label(st: CalcModel, l: Seq<char>) -> bool {
    l.len() == 1 && is_digit_label(l[0]) && digit_value(l[0], st.base.radix_spec() as nat) is None
}

/// The rows of buttons that hold the bitwise operators.
pub const BITWISE_ROW_A: usize = 2;

pub const BITWISE_ROW_B: usize = 3;

impl App {
    /// Whether the button with action `action` selects the current base or
    /// word size (`BASE` or `WORD` followed by the radix or the bits).
    pub fn button_active(&self, action: &str) -> (r: bool)
        ensures
            r == active_name(self.st@, action@),
    {
        let mut base_name = String::from_str("BASE");
        let radix = format_unsigned(self.st.base.radix() as u64, 10);
        base_name.append(radix.as_str());
        let mut word_name = String::from_str("WORD");
        let bits = format_unsigned(self.st.word.bits() as u64, 10);
        word_name.append(bits.as_str());
        str_eq(action, base_name.as_str()) || str_eq(action, word_name.as_str())
    }

    /// Whether a digit button is greyed out: its label is a single upper-case
    /// hexadecimal digit that is no digit of the current base.
    pub fn button_disabled(&self, label: &str) -> (r: bool)
        ensures
            r == disabled_label(self.st@, label@),
    {
        if label.unicode_len() != 1 {
            return false;
        }
        let c = label.get_char(0);
        (('0' <= c && c <= '9') || ('A' <= c && c <= 'F')) && !self.st.base.valid_char(c)
    }

    /// Whether a row of buttons is shown: the bitwise rows only while the
    /// bitwise panel is on.
    pub fn row_visible(&self, row: usize) -> (r: bool)
        ensures
            r == (self.show_bitwise || !(row == BITWISE_ROW_A || row == BITWISE_ROW_B)),
    {
        self.show_bitwise || !(row == BITWISE_ROW_A || row == BITWISE_ROW_B)
    }

    /// The right operand typed so far for the pending expression, or nothing
    /// while no digit has been typed since the operator.
    pub fn live_rhs(&self) -> (s: String)
        ensures
            s@ == (if !self.st.new_input {
                fmt_text(self.st@, self.st.value)
            } else {
                Seq::<char>::empty()
            }),
    {
        if !self.st.new_input {
            Self::fmt(&self.st, self.st.value)
        } else {
            String::new()
        }
    }

    /// The bit shown in the bit view at position `pos`: that bit of the value
    /// cut to the word, or zero beyond the word.
    pub fn bit_cell(&self, pos: u32) -> (b: u64)
        ensures
            b == (if pos < self.st.word.bits_spec() {
                (self.st@.cur() >> pos) & 1
            } else {
                0
            }),
    {
        let v = self.st.value & self.st.mask();
        let bits = self.st.word.bits();
        if pos < bits {
            (v >> pos) & 1
        } else {
            0
        }
    }
}

impl ExprEntry {
    /// The history line: `lhs op rhs = result` once complete, `lhs op` before,
    /// after two spaces.
    pub fn line(&self) -> (s: String)
        ensures
            s@ == (if self.complete {
                "  "@ + self.lhs@ + " "@ + self.op@ + " "@ + self.rhs@ + " = "@ + self.result@
            } else {
                "  "@ + self.lhs@ + " "@ + self.op@
            }),
    {
        let mut s = String::from_str("  ");
        s.append(self.lhs.as_str());
        s.append(" ");
        s.append(self.op.as_str());
        if self.complete {
            s.append(" ");
            s.append(self.rhs.as_str());
            s.append(" = ");
            s.append(self.result.as_str());
        }
        s
    }
}

} // verus!
