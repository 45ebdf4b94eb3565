//! What the front panel's buttons, keys and history do, stated over all
//! states.
use vstd::prelude::*;
use crate::frontend::{
    active_name, bit_at, click_model, MouseInput, ToggleId, button_at, disabled_label, in_rect, toggle_at, BitHit, BtnHit, ToggleHit,
    dispatch_model, key_outcome, push_history, raw_step, AppModel, EntryModel, Key, KeyInput,
    KeyOutcome,
};
use crate::radix::{
    ascii_upper, digit_char, digit_value, digits_of, literal_value, parse_u64_spec,
};
use crate::state::{value_text, Base, CalcModel, Op, WordSize};

verus! {

/// The button names are distinct, and none is a single character.
proof fn lemma_names_distinct()
    ensures
        "BASE16"@.len() == 6,
        "BASE10"@.len() == 6,
        "BASE8"@.len() == 5,
        "BASE2"@.len() == 5,
        "WORD64"@.len() == 6,
        "WORD32"@.len() == 6,
        "WORD16"@.len() == 6,
        "WORD8"@.len() == 5,
        "ADD"@.len() == 3,
        "SUB"@.len() == 3,
        "MUL"@.len() == 3,
        "DIV"@.len() == 3,
        "MOD"@.len() == 3,
        "AND"@.len() == 3,
        "OR"@.len() == 2,
        "XOR"@.len() == 3,
        "LSH"@.len() == 3,
        "RSH"@.len() == 3,
        "EQ"@.len() == 2,
        "CE"@.len() == 2,
        "CLR"@.len() == 3,
        "BACK"@.len() == 4,
        "NEG"@.len() == 3,
        "NOT"@.len() == 3,
        "ROL"@.len() == 3,
        "ROR"@.len() == 3,
        "TOGGLE_HISTORY"@.len() == 14,
        "TOGGLE_BITS"@.len() == 11,
        "TOGGLE_BITWISE"@.len() == 14,
        "BASE16"@ != "BASE10"@,
        "BASE16"@ != "BASE8"@,
        "BASE16"@ != "BASE2"@,
        "BASE16"@ != "WORD64"@,
        "BASE16"@ != "WORD32"@,
        "BASE16"@ != "WORD16"@,
        "BASE16"@ != "WORD8"@,
        "BASE16"@ != "ADD"@,
        "BASE16"@ != "SUB"@,
        "BASE16"@ != "MUL"@,
        "BASE16"@ != "DIV"@,
        "BASE16"@ != "MOD"@,
        "BASE16"@ != "AND"@,
        "BASE16"@ != "OR"@,
        "BASE16"@ != "XOR"@,
        "BASE16"@ != "LSH"@,
        "BASE16"@ != "RSH"@,
        "BASE16"@ != "EQ"@,
        "BASE16"@ != "CE"@,
        "BASE16"@ != "CLR"@,
        "BASE16"@ != "BACK"@,
        "BASE16"@ != "NEG"@,
        "BASE16"@ != "NOT"@,
        "BASE16"@ != "ROL"@,
        "BASE16"@ != "ROR"@,
        "BASE16"@ != "TOGGLE_HISTORY"@,
        "BASE16"@ != "TOGGLE_BITS"@,
        "BASE16"@ != "TOGGLE_BITWISE"@,
        "BASE10"@ != "BASE8"@,
        "BASE10"@ != "BASE2"@,
        "BASE10"@ != "WORD64"@,
        "BASE10"@ != "WORD32"@,
        "BASE10"@ != "WORD16"@,
        "BASE10"@ != "WORD8"@,
        "BASE10"@ != "ADD"@,
        "BASE10"@ != "SUB"@,
        "BASE10"@ != "MUL"@,
        "BASE10"@ != "DIV"@,
        "BASE10"@ != "MOD"@,
        "BASE10"@ != "AND"@,
        "BASE10"@ != "OR"@,
        "BASE10"@ != "XOR"@,
        "BASE10"@ != "LSH"@,
        "BASE10"@ != "RSH"@,
        "BASE10"@ != "EQ"@,
        "BASE10"@ != "CE"@,
        "BASE10"@ != "CLR"@,
        "BASE10"@ != "BACK"@,
        "BASE10"@ != "NEG"@,
        "BASE10"@ != "NOT"@,
        "BASE10"@ != "ROL"@,
        "BASE10"@ != "ROR"@,
        "BASE10"@ != "TOGGLE_HISTORY"@,
        "BASE10"@ != "TOGGLE_BITS"@,
        "BASE10"@ != "TOGGLE_BITWISE"@,
        "BASE8"@ != "BASE2"@,
        "BASE8"@ != "WORD64"@,
        "BASE8"@ != "WORD32"@,
        "BASE8"@ != "WORD16"@,
        "BASE8"@ != "WORD8"@,
        "BASE8"@ != "ADD"@,
        "BASE8"@ != "SUB"@,
        "BASE8"@ != "MUL"@,
        "BASE8"@ != "DIV"@,
        "BASE8"@ != "MOD"@,
        "BASE8"@ != "AND"@,
        "BASE8"@ != "OR"@,
        "BASE8"@ != "XOR"@,
        "BASE8"@ != "LSH"@,
        "BASE8"@ != "RSH"@,
        "BASE8"@ != "EQ"@,
        "BASE8"@ != "CE"@,
        "BASE8"@ != "CLR"@,
        "BASE8"@ != "BACK"@,
        "BASE8"@ != "NEG"@,
        "BASE8"@ != "NOT"@,
        "BASE8"@ != "ROL"@,
        "BASE8"@ != "ROR"@,
        "BASE8"@ != "TOGGLE_HISTORY"@,
        "BASE8"@ != "TOGGLE_BITS"@,
        "BASE8"@ != "TOGGLE_BITWISE"@,
        "BASE2"@ != "WORD64"@,
        "BASE2"@ != "WORD32"@,
        "BASE2"@ != "WORD16"@,
        "BASE2"@ != "WORD8"@,
        "BASE2"@ != "ADD"@,
        "BASE2"@ != "SUB"@,
        "BASE2"@ != "MUL"@,
        "BASE2"@ != "DIV"@,
        "BASE2"@ != "MOD"@,
        "BASE2"@ != "AND"@,
        "BASE2"@ != "OR"@,
        "BASE2"@ != "XOR"@,
        "BASE2"@ != "LSH"@,
        "BASE2"@ != "RSH"@,
        "BASE2"@ != "EQ"@,
        "BASE2"@ != "CE"@,
        "BASE2"@ != "CLR"@,
        "BASE2"@ != "BACK"@,
        "BASE2"@ != "NEG"@,
        "BASE2"@ != "NOT"@,
        "BASE2"@ != "ROL"@,
        "BASE2"@ != "ROR"@,
        "BASE2"@ != "TOGGLE_HISTORY"@,
        "BASE2"@ != "TOGGLE_BITS"@,
        "BASE2"@ != "TOGGLE_BITWISE"@,
        "WORD64"@ != "WORD32"@,
        "WORD64"@ != "WORD16"@,
        "WORD64"@ != "WORD8"@,
        "WORD64"@ != "ADD"@,
        "WORD64"@ != "SUB"@,
        "WORD64"@ != "MUL"@,
        "WORD64"@ != "DIV"@,
        "WORD64"@ != "MOD"@,
        "WORD64"@ != "AND"@,
        "WORD64"@ != "OR"@,
        "WORD64"@ != "XOR"@,
        "WORD64"@ != "LSH"@,
        "WORD64"@ != "RSH"@,
        "WORD64"@ != "EQ"@,
        "WORD64"@ != "CE"@,
        "WORD64"@ != "CLR"@,
        "WORD64"@ != "BACK"@,
        "WORD64"@ != "NEG"@,
        "WORD64"@ != "NOT"@,
        "WORD64"@ != "ROL"@,
        "WORD64"@ != "ROR"@,
        "WORD64"@ != "TOGGLE_HISTORY"@,
        "WORD64"@ != "TOGGLE_BITS"@,
        "WORD64"@ != "TOGGLE_BITWISE"@,
        "WORD32"@ != "WORD16"@,
        "WORD32"@ != "WORD8"@,
        "WORD32"@ != "ADD"@,
        "WORD32"@ != "SUB"@,
        "WORD32"@ != "MUL"@,
        "WORD32"@ != "DIV"@,
        "WORD32"@ != "MOD"@,
        "WORD32"@ != "AND"@,
        "WORD32"@ != "OR"@,
        "WORD32"@ != "XOR"@,
        "WORD32"@ != "LSH"@,
        "WORD32"@ != "RSH"@,
        "WORD32"@ != "EQ"@,
        "WORD32"@ != "CE"@,
        "WORD32"@ != "CLR"@,
        "WORD32"@ != "BACK"@,
        "WORD32"@ != "NEG"@,
        "WORD32"@ != "NOT"@,
        "WORD32"@ != "ROL"@,
        "WORD32"@ != "ROR"@,
        "WORD32"@ != "TOGGLE_HISTORY"@,
        "WORD32"@ != "TOGGLE_BITS"@,
        "WORD32"@ != "TOGGLE_BITWISE"@,
        "WORD16"@ != "WORD8"@,
        "WORD16"@ != "ADD"@,
        "WORD16"@ != "SUB"@,
        "WORD16"@ != "MUL"@,
        "WORD16"@ != "DIV"@,
        "WORD16"@ != "MOD"@,
        "WORD16"@ != "AND"@,
        "WORD16"@ != "OR"@,
        "WORD16"@ != "XOR"@,
        "WORD16"@ != "LSH"@,
        "WORD16"@ != "RSH"@,
        "WORD16"@ != "EQ"@,
        "WORD16"@ != "CE"@,
        "WORD16"@ != "CLR"@,
        "WORD16"@ != "BACK"@,
        "WORD16"@ != "NEG"@,
        "WORD16"@ != "NOT"@,
        "WORD16"@ != "ROL"@,
        "WORD16"@ != "ROR"@,
        "WORD16"@ != "TOGGLE_HISTORY"@,
        "WORD16"@ != "TOGGLE_BITS"@,
        "WORD16"@ != "TOGGLE_BITWISE"@,
        "WORD8"@ != "ADD"@,
        "WORD8"@ != "SUB"@,
        "WORD8"@ != "MUL"@,
        "WORD8"@ != "DIV"@,
        "WORD8"@ != "MOD"@,
        "WORD8"@ != "AND"@,
        "WORD8"@ != "OR"@,
        "WORD8"@ != "XOR"@,
        "WORD8"@ != "LSH"@,
        "WORD8"@ != "RSH"@,
        "WORD8"@ != "EQ"@,
        "WORD8"@ != "CE"@,
        "WORD8"@ != "CLR"@,
        "WORD8"@ != "BACK"@,
        "WORD8"@ != "NEG"@,
        "WORD8"@ != "NOT"@,
        "WORD8"@ != "ROL"@,
        "WORD8"@ != "ROR"@,
        "WORD8"@ != "TOGGLE_HISTORY"@,
        "WORD8"@ != "TOGGLE_BITS"@,
        "WORD8"@ != "TOGGLE_BITWISE"@,
        "ADD"@ != "SUB"@,
        "ADD"@ != "MUL"@,
        "ADD"@ != "DIV"@,
        "ADD"@ != "MOD"@,
        "ADD"@ != "AND"@,
        "ADD"@ != "OR"@,
        "ADD"@ != "XOR"@,
        "ADD"@ != "LSH"@,
        "ADD"@ != "RSH"@,
        "ADD"@ != "EQ"@,
        "ADD"@ != "CE"@,
        "ADD"@ != "CLR"@,
        "ADD"@ != "BACK"@,
        "ADD"@ != "NEG"@,
        "ADD"@ != "NOT"@,
        "ADD"@ != "ROL"@,
        "ADD"@ != "ROR"@,
        "ADD"@ != "TOGGLE_HISTORY"@,
        "ADD"@ != "TOGGLE_BITS"@,
        "ADD"@ != "TOGGLE_BITWISE"@,
        "SUB"@ != "MUL"@,
        "SUB"@ != "DIV"@,
        "SUB"@ != "MOD"@,
        "SUB"@ != "AND"@,
        "SUB"@ != "OR"@,
        "SUB"@ != "XOR"@,
        "SUB"@ != "LSH"@,
        "SUB"@ != "RSH"@,
        "SUB"@ != "EQ"@,
        "SUB"@ != "CE"@,
        "SUB"@ != "CLR"@,
        "SUB"@ != "BACK"@,
        "SUB"@ != "NEG"@,
        "SUB"@ != "NOT"@,
        "SUB"@ != "ROL"@,
        "SUB"@ != "ROR"@,
        "SUB"@ != "TOGGLE_HISTORY"@,
        "SUB"@ != "TOGGLE_BITS"@,
        "SUB"@ != "TOGGLE_BITWISE"@,
        "MUL"@ != "DIV"@,
        "MUL"@ != "MOD"@,
        "MUL"@ != "AND"@,
        "MUL"@ != "OR"@,
        "MUL"@ != "XOR"@,
        "MUL"@ != "LSH"@,
        "MUL"@ != "RSH"@,
        "MUL"@ != "EQ"@,
        "MUL"@ != "CE"@,
        "MUL"@ != "CLR"@,
        "MUL"@ != "BACK"@,
        "MUL"@ != "NEG"@,
        "MUL"@ != "NOT"@,
        "MUL"@ != "ROL"@,
        "MUL"@ != "ROR"@,
        "MUL"@ != "TOGGLE_HISTORY"@,
        "MUL"@ != "TOGGLE_BITS"@,
        "MUL"@ != "TOGGLE_BITWISE"@,
        "DIV"@ != "MOD"@,
        "DIV"@ != "AND"@,
        "DIV"@ != "OR"@,
        "DIV"@ != "XOR"@,
        "DIV"@ != "LSH"@,
        "DIV"@ != "RSH"@,
        "DIV"@ != "EQ"@,
        "DIV"@ != "CE"@,
        "DIV"@ != "CLR"@,
        "DIV"@ != "BACK"@,
        "DIV"@ != "NEG"@,
        "DIV"@ != "NOT"@,
        "DIV"@ != "ROL"@,
        "DIV"@ != "ROR"@,
        "DIV"@ != "TOGGLE_HISTORY"@,
        "DIV"@ != "TOGGLE_BITS"@,
        "DIV"@ != "TOGGLE_BITWISE"@,
        "MOD"@ != "AND"@,
        "MOD"@ != "OR"@,
        "MOD"@ != "XOR"@,
        "MOD"@ != "LSH"@,
        "MOD"@ != "RSH"@,
        "MOD"@ != "EQ"@,
        "MOD"@ != "CE"@,
        "MOD"@ != "CLR"@,
        "MOD"@ != "BACK"@,
        "MOD"@ != "NEG"@,
        "MOD"@ != "NOT"@,
        "MOD"@ != "ROL"@,
        "MOD"@ != "ROR"@,
        "MOD"@ != "TOGGLE_HISTORY"@,
        "MOD"@ != "TOGGLE_BITS"@,
        "MOD"@ != "TOGGLE_BITWISE"@,
        "AND"@ != "OR"@,
        "AND"@ != "XOR"@,
        "AND"@ != "LSH"@,
        "AND"@ != "RSH"@,
        "AND"@ != "EQ"@,
        "AND"@ != "CE"@,
        "AND"@ != "CLR"@,
        "AND"@ != "BACK"@,
        "AND"@ != "NEG"@,
        "AND"@ != "NOT"@,
        "AND"@ != "ROL"@,
        "AND"@ != "ROR"@,
        "AND"@ != "TOGGLE_HISTORY"@,
        "AND"@ != "TOGGLE_BITS"@,
        "AND"@ != "TOGGLE_BITWISE"@,
        "OR"@ != "XOR"@,
        "OR"@ != "LSH"@,
        "OR"@ != "RSH"@,
        "OR"@ != "EQ"@,
        "OR"@ != "CE"@,
        "OR"@ != "CLR"@,
        "OR"@ != "BACK"@,
        "OR"@ != "NEG"@,
        "OR"@ != "NOT"@,
        "OR"@ != "ROL"@,
        "OR"@ != "ROR"@,
        "OR"@ != "TOGGLE_HISTORY"@,
        "OR"@ != "TOGGLE_BITS"@,
        "OR"@ != "TOGGLE_BITWISE"@,
        "XOR"@ != "LSH"@,
        "XOR"@ != "RSH"@,
        "XOR"@ != "EQ"@,
        "XOR"@ != "CE"@,
        "XOR"@ != "CLR"@,
        "XOR"@ != "BACK"@,
        "XOR"@ != "NEG"@,
        "XOR"@ != "NOT"@,
        "XOR"@ != "ROL"@,
        "XOR"@ != "ROR"@,
        "XOR"@ != "TOGGLE_HISTORY"@,
        "XOR"@ != "TOGGLE_BITS"@,
        "XOR"@ != "TOGGLE_BITWISE"@,
        "LSH"@ != "RSH"@,
        "LSH"@ != "EQ"@,
        "LSH"@ != "CE"@,
        "LSH"@ != "CLR"@,
        "LSH"@ != "BACK"@,
        "LSH"@ != "NEG"@,
        "LSH"@ != "NOT"@,
        "LSH"@ != "ROL"@,
        "LSH"@ != "ROR"@,
        "LSH"@ != "TOGGLE_HISTORY"@,
        "LSH"@ != "TOGGLE_BITS"@,
        "LSH"@ != "TOGGLE_BITWISE"@,
        "RSH"@ != "EQ"@,
        "RSH"@ != "CE"@,
        "RSH"@ != "CLR"@,
        "RSH"@ != "BACK"@,
        "RSH"@ != "NEG"@,
        "RSH"@ != "NOT"@,
        "RSH"@ != "ROL"@,
        "RSH"@ != "ROR"@,
        "RSH"@ != "TOGGLE_HISTORY"@,
        "RSH"@ != "TOGGLE_BITS"@,
        "RSH"@ != "TOGGLE_BITWISE"@,
        "EQ"@ != "CE"@,
        "EQ"@ != "CLR"@,
        "EQ"@ != "BACK"@,
        "EQ"@ != "NEG"@,
        "EQ"@ != "NOT"@,
        "EQ"@ != "ROL"@,
        "EQ"@ != "ROR"@,
        "EQ"@ != "TOGGLE_HISTORY"@,
        "EQ"@ != "TOGGLE_BITS"@,
        "EQ"@ != "TOGGLE_BITWISE"@,
        "CE"@ != "CLR"@,
        "CE"@ != "BACK"@,
        "CE"@ != "NEG"@,
        "CE"@ != "NOT"@,
        "CE"@ != "ROL"@,
        "CE"@ != "ROR"@,
        "CE"@ != "TOGGLE_HISTORY"@,
        "CE"@ != "TOGGLE_BITS"@,
        "CE"@ != "TOGGLE_BITWISE"@,
        "CLR"@ != "BACK"@,
        "CLR"@ != "NEG"@,
        "CLR"@ != "NOT"@,
        "CLR"@ != "ROL"@,
        "CLR"@ != "ROR"@,
        "CLR"@ != "TOGGLE_HISTORY"@,
        "CLR"@ != "TOGGLE_BITS"@,
        "CLR"@ != "TOGGLE_BITWISE"@,
        "BACK"@ != "NEG"@,
        "BACK"@ != "NOT"@,
        "BACK"@ != "ROL"@,
        "BACK"@ != "ROR"@,
        "BACK"@ != "TOGGLE_HISTORY"@,
        "BACK"@ != "TOGGLE_BITS"@,
        "BACK"@ != "TOGGLE_BITWISE"@,
        "NEG"@ != "NOT"@,
        "NEG"@ != "ROL"@,
        "NEG"@ != "ROR"@,
        "NEG"@ != "TOGGLE_HISTORY"@,
        "NEG"@ != "TOGGLE_BITS"@,
        "NEG"@ != "TOGGLE_BITWISE"@,
        "NOT"@ != "ROL"@,
        "NOT"@ != "ROR"@,
        "NOT"@ != "TOGGLE_HISTORY"@,
        "NOT"@ != "TOGGLE_BITS"@,
        "NOT"@ != "TOGGLE_BITWISE"@,
        "ROL"@ != "ROR"@,
        "ROL"@ != "TOGGLE_HISTORY"@,
        "ROL"@ != "TOGGLE_BITS"@,
        "ROL"@ != "TOGGLE_BITWISE"@,
        "ROR"@ != "TOGGLE_HISTORY"@,
        "ROR"@ != "TOGGLE_BITS"@,
        "ROR"@ != "TOGGLE_BITWISE"@,
        "TOGGLE_HISTORY"@ != "TOGGLE_BITS"@,
        "TOGGLE_HISTORY"@ != "TOGGLE_BITWISE"@,
        "TOGGLE_BITS"@ != "TOGGLE_BITWISE"@,
{
    reveal_strlit("BASE16");
    reveal_strlit("BASE10");
    reveal_strlit("BASE8");
    reveal_strlit("BASE2");
    reveal_strlit("WORD64");
    reveal_strlit("WORD32");
    reveal_strlit("WORD16");
    reveal_strlit("WORD8");
    reveal_strlit("ADD");
    reveal_strlit("SUB");
    reveal_strlit("MUL");
    reveal_strlit("DIV");
    reveal_strlit("MOD");
    reveal_strlit("AND");
    reveal_strlit("OR");
    reveal_strlit("XOR");
    reveal_strlit("LSH");
    reveal_strlit("RSH");
    reveal_strlit("EQ");
    reveal_strlit("CE");
    reveal_strlit("CLR");
    reveal_strlit("BACK");
    reveal_strlit("NEG");
    reveal_strlit("NOT");
    reveal_strlit("ROL");
    reveal_strlit("ROR");
    reveal_strlit("TOGGLE_HISTORY");
    reveal_strlit("TOGGLE_BITS");
    reveal_strlit("TOGGLE_BITWISE");
    assert("BASE16"@[5] != "BASE10"@[5]);
    assert("BASE16"@.len() != "BASE8"@.len());
    assert("BASE16"@.len() != "BASE2"@.len());
    assert("BASE16"@[0] != "WORD64"@[0]);
    assert("BASE16"@[0] != "WORD32"@[0]);
    assert("BASE16"@[0] != "WORD16"@[0]);
    assert("BASE16"@.len() != "WORD8"@.len());
    assert("BASE16"@.len() != "ADD"@.len());
    assert("BASE16"@.len() != "SUB"@.len());
    assert("BASE16"@.len() != "MUL"@.len());
    assert("BASE16"@.len() != "DIV"@.len());
    assert("BASE16"@.len() != "MOD"@.len());
    assert("BASE16"@.len() != "AND"@.len());
    assert("BASE16"@.len() != "OR"@.len());
    assert("BASE16"@.len() != "XOR"@.len());
    assert("BASE16"@.len() != "LSH"@.len());
    assert("BASE16"@.len() != "RSH"@.len());
    assert("BASE16"@.len() != "EQ"@.len());
    assert("BASE16"@.len() != "CE"@.len());
    assert("BASE16"@.len() != "CLR"@.len());
    assert("BASE16"@.len() != "BACK"@.len());
    assert("BASE16"@.len() != "NEG"@.len());
    assert("BASE16"@.len() != "NOT"@.len());
    assert("BASE16"@.len() != "ROL"@.len());
    assert("BASE16"@.len() != "ROR"@.len());
    assert("BASE16"@.len() != "TOGGLE_HISTORY"@.len());
    assert("BASE16"@.len() != "TOGGLE_BITS"@.len());
    assert("BASE16"@.len() != "TOGGLE_BITWISE"@.len());
    assert("BASE10"@.len() != "BASE8"@.len());
    assert("BASE10"@.len() != "BASE2"@.len());
    assert("BASE10"@[0] != "WORD64"@[0]);
    assert("BASE10"@[0] != "WORD32"@[0]);
    assert("BASE10"@[0] != "WORD16"@[0]);
    assert("BASE10"@.len() != "WORD8"@.len());
    assert("BASE10"@.len() != "ADD"@.len());
    assert("BASE10"@.len() != "SUB"@.len());
    assert("BASE10"@.len() != "MUL"@.len());
    assert("BASE10"@.len() != "DIV"@.len());
    assert("BASE10"@.len() != "MOD"@.len());
    assert("BASE10"@.len() != "AND"@.len());
    assert("BASE10"@.len() != "OR"@.len());
    assert("BASE10"@.len() != "XOR"@.len());
    assert("BASE10"@.len() != "LSH"@.len());
    assert("BASE10"@.len() != "RSH"@.len());
    assert("BASE10"@.len() != "EQ"@.len());
    assert("BASE10"@.len() != "CE"@.len());
    assert("BASE10"@.len() != "CLR"@.len());
    assert("BASE10"@.len() != "BACK"@.len());
    assert("BASE10"@.len() != "NEG"@.len());
    assert("BASE10"@.len() != "NOT"@.len());
    assert("BASE10"@.len() != "ROL"@.len());
    assert("BASE10"@.len() != "ROR"@.len());
    assert("BASE10"@.len() != "TOGGLE_HISTORY"@.len());
    assert("BASE10"@.len() != "TOGGLE_BITS"@.len());
    assert("BASE10"@.len() != "TOGGLE_BITWISE"@.len());
    assert("BASE8"@[4] != "BASE2"@[4]);
    assert("BASE8"@.len() != "WORD64"@.len());
    assert("BASE8"@.len() != "WORD32"@.len());
    assert("BASE8"@.len() != "WORD16"@.len());
    assert("BASE8"@[0] != "WORD8"@[0]);
    assert("BASE8"@.len() != "ADD"@.len());
    assert("BASE8"@.len() != "SUB"@.len());
    assert("BASE8"@.len() != "MUL"@.len());
    assert("BASE8"@.len() != "DIV"@.len());
    assert("BASE8"@.len() != "MOD"@.len());
    assert("BASE8"@.len() != "AND"@.len());
    assert("BASE8"@.len() != "OR"@.len());
    assert("BASE8"@.len() != "XOR"@.len());
    assert("BASE8"@.len() != "LSH"@.len());
    assert("BASE8"@.len() != "RSH"@.len());
    assert("BASE8"@.len() != "EQ"@.len());
    assert("BASE8"@.len() != "CE"@.len());
    assert("BASE8"@.len() != "CLR"@.len());
    assert("BASE8"@.len() != "BACK"@.len());
    assert("BASE8"@.len() != "NEG"@.len());
    assert("BASE8"@.len() != "NOT"@.len());
    assert("BASE8"@.len() != "ROL"@.len());
    assert("BASE8"@.len() != "ROR"@.len());
    assert("BASE8"@.len() != "TOGGLE_HISTORY"@.len());
    assert("BASE8"@.len() != "TOGGLE_BITS"@.len());
    assert("BASE8"@.len() != "TOGGLE_BITWISE"@.len());
    assert("BASE2"@.len() != "WORD64"@.len());
    assert("BASE2"@.len() != "WORD32"@.len());
    assert("BASE2"@.len() != "WORD16"@.len());
    assert("BASE2"@[0] != "WORD8"@[0]);
    assert("BASE2"@.len() != "ADD"@.len());
    assert("BASE2"@.len() != "SUB"@.len());
    assert("BASE2"@.len() != "MUL"@.len());
    assert("BASE2"@.len() != "DIV"@.len());
    assert("BASE2"@.len() != "MOD"@.len());
    assert("BASE2"@.len() != "AND"@.len());
    assert("BASE2"@.len() != "OR"@.len());
    assert("BASE2"@.len() != "XOR"@.len());
    assert("BASE2"@.len() != "LSH"@.len());
    assert("BASE2"@.len() != "RSH"@.len());
    assert("BASE2"@.len() != "EQ"@.len());
    assert("BASE2"@.len() != "CE"@.len());
    assert("BASE2"@.len() != "CLR"@.len());
    assert("BASE2"@.len() != "BACK"@.len());
    assert("BASE2"@.len() != "NEG"@.len());
    assert("BASE2"@.len() != "NOT"@.len());
    assert("BASE2"@.len() != "ROL"@.len());
    assert("BASE2"@.len() != "ROR"@.len());
    assert("BASE2"@.len() != "TOGGLE_HISTORY"@.len());
    assert("BASE2"@.len() != "TOGGLE_BITS"@.len());
    assert("BASE2"@.len() != "TOGGLE_BITWISE"@.len());
    assert("WORD64"@[4] != "WORD32"@[4]);
    assert("WORD64"@[4] != "WORD16"@[4]);
    assert("WORD64"@.len() != "WORD8"@.len());
    assert("WORD64"@.len() != "ADD"@.len());
    assert("WORD64"@.len() != "SUB"@.len());
    assert("WORD64"@.len() != "MUL"@.len());
    assert("WORD64"@.len() != "DIV"@.len());
    assert("WORD64"@.len() != "MOD"@.len());
    assert("WORD64"@.len() != "AND"@.len());
    assert("WORD64"@.len() != "OR"@.len());
    assert("WORD64"@.len() != "XOR"@.len());
    assert("WORD64"@.len() != "LSH"@.len());
    assert("WORD64"@.len() != "RSH"@.len());
    assert("WORD64"@.len() != "EQ"@.len());
    assert("WORD64"@.len() != "CE"@.len());
    assert("WORD64"@.len() != "CLR"@.len());
    assert("WORD64"@.len() != "BACK"@.len());
    assert("WORD64"@.len() != "NEG"@.len());
    assert("WORD64"@.len() != "NOT"@.len());
    assert("WORD64"@.len() != "ROL"@.len());
    assert("WORD64"@.len() != "ROR"@.len());
    assert("WORD64"@.len() != "TOGGLE_HISTORY"@.len());
    assert("WORD64"@.len() != "TOGGLE_BITS"@.len());
    assert("WORD64"@.len() != "TOGGLE_BITWISE"@.len());
    assert("WORD32"@[4] != "WORD16"@[4]);
    assert("WORD32"@.len() != "WORD8"@.len());
    assert("WORD32"@.len() != "ADD"@.len());
    assert("WORD32"@.len() != "SUB"@.len());
    assert("WORD32"@.len() != "MUL"@.len());
    assert("WORD32"@.len() != "DIV"@.len());
    assert("WORD32"@.len() != "MOD"@.len());
    assert("WORD32"@.len() != "AND"@.len());
    assert("WORD32"@.len() != "OR"@.len());
    assert("WORD32"@.len() != "XOR"@.len());
    assert("WORD32"@.len() != "LSH"@.len());
    assert("WORD32"@.len() != "RSH"@.len());
    assert("WORD32"@.len() != "EQ"@.len());
    assert("WORD32"@.len() != "CE"@.len());
    assert("WORD32"@.len() != "CLR"@.len());
    assert("WORD32"@.len() != "BACK"@.len());
    assert("WORD32"@.len() != "NEG"@.len());
    assert("WORD32"@.len() != "NOT"@.len());
    assert("WORD32"@.len() != "ROL"@.len());
    assert("WORD32"@.len() != "ROR"@.len());
    assert("WORD32"@.len() != "TOGGLE_HISTORY"@.len());
    assert("WORD32"@.len() != "TOGGLE_BITS"@.len());
    assert("WORD32"@.len() != "TOGGLE_BITWISE"@.len());
    assert("WORD16"@.len() != "WORD8"@.len());
    assert("WORD16"@.len() != "ADD"@.len());
    assert("WORD16"@.len() != "SUB"@.len());
    assert("WORD16"@.len() != "MUL"@.len());
    assert("WORD16"@.len() != "DIV"@.len());
    assert("WORD16"@.len() != "MOD"@.len());
    assert("WORD16"@.len() != "AND"@.len());
    assert("WORD16"@.len() != "OR"@.len());
    assert("WORD16"@.len() != "XOR"@.len());
    assert("WORD16"@.len() != "LSH"@.len());
    assert("WORD16"@.len() != "RSH"@.len());
    assert("WORD16"@.len() != "EQ"@.len());
    assert("WORD16"@.len() != "CE"@.len());
    assert("WORD16"@.len() != "CLR"@.len());
    assert("WORD16"@.len() != "BACK"@.len());
    assert("WORD16"@.len() != "NEG"@.len());
    assert("WORD16"@.len() != "NOT"@.len());
    assert("WORD16"@.len() != "ROL"@.len());
    assert("WORD16"@.len() != "ROR"@.len());
    assert("WORD16"@.len() != "TOGGLE_HISTORY"@.len());
    assert("WORD16"@.len() != "TOGGLE_BITS"@.len());
    assert("WORD16"@.len() != "TOGGLE_BITWISE"@.len());
    assert("WORD8"@.len() != "ADD"@.len());
    assert("WORD8"@.len() != "SUB"@.len());
    assert("WORD8"@.len() != "MUL"@.len());
    assert("WORD8"@.len() != "DIV"@.len());
    assert("WORD8"@.len() != "MOD"@.len());
    assert("WORD8"@.len() != "AND"@.len());
    assert("WORD8"@.len() != "OR"@.len());
    assert("WORD8"@.len() != "XOR"@.len());
    assert("WORD8"@.len() != "LSH"@.len());
    assert("WORD8"@.len() != "RSH"@.len());
    assert("WORD8"@.len() != "EQ"@.len());
    assert("WORD8"@.len() != "CE"@.len());
    assert("WORD8"@.len() != "CLR"@.len());
    assert("WORD8"@.len() != "BACK"@.len());
    assert("WORD8"@.len() != "NEG"@.len());
    assert("WORD8"@.len() != "NOT"@.len());
    assert("WORD8"@.len() != "ROL"@.len());
    assert("WORD8"@.len() != "ROR"@.len());
    assert("WORD8"@.len() != "TOGGLE_HISTORY"@.len());
    assert("WORD8"@.len() != "TOGGLE_BITS"@.len());
    assert("WORD8"@.len() != "TOGGLE_BITWISE"@.len());
    assert("ADD"@[0] != "SUB"@[0]);
    assert("ADD"@[0] != "MUL"@[0]);
    assert("ADD"@[0] != "DIV"@[0]);
    assert("ADD"@[0] != "MOD"@[0]);
    assert("ADD"@[1] != "AND"@[1]);
    assert("ADD"@.len() != "OR"@.len());
    assert("ADD"@[0] != "XOR"@[0]);
    assert("ADD"@[0] != "LSH"@[0]);
    assert("ADD"@[0] != "RSH"@[0]);
    assert("ADD"@.len() != "EQ"@.len());
    assert("ADD"@.len() != "CE"@.len());
    assert("ADD"@[0] != "CLR"@[0]);
    assert("ADD"@.len() != "BACK"@.len());
    assert("ADD"@[0] != "NEG"@[0]);
    assert("ADD"@[0] != "NOT"@[0]);
    assert("ADD"@[0] != "ROL"@[0]);
    assert("ADD"@[0] != "ROR"@[0]);
    assert("ADD"@.len() != "TOGGLE_HISTORY"@.len());
    assert("ADD"@.len() != "TOGGLE_BITS"@.len());
    assert("ADD"@.len() != "TOGGLE_BITWISE"@.len());
    assert("SUB"@[0] != "MUL"@[0]);
    assert("SUB"@[0] != "DIV"@[0]);
    assert("SUB"@[0] != "MOD"@[0]);
    assert("SUB"@[0] != "AND"@[0]);
    assert("SUB"@.len() != "OR"@.len());
    assert("SUB"@[0] != "XOR"@[0]);
    assert("SUB"@[0] != "LSH"@[0]);
    assert("SUB"@[0] != "RSH"@[0]);
    assert("SUB"@.len() != "EQ"@.len());
    assert("SUB"@.len() != "CE"@.len());
    assert("SUB"@[0] != "CLR"@[0]);
    assert("SUB"@.len() != "BACK"@.len());
    assert("SUB"@[0] != "NEG"@[0]);
    assert("SUB"@[0] != "NOT"@[0]);
    assert("SUB"@[0] != "ROL"@[0]);
    assert("SUB"@[0] != "ROR"@[0]);
    assert("SUB"@.len() != "TOGGLE_HISTORY"@.len());
    assert("SUB"@.len() != "TOGGLE_BITS"@.len());
    assert("SUB"@.len() != "TOGGLE_BITWISE"@.len());
    assert("MUL"@[0] != "DIV"@[0]);
    assert("MUL"@[1] != "MOD"@[1]);
    assert("MUL"@[0] != "AND"@[0]);
    assert("MUL"@.len() != "OR"@.len());
    assert("MUL"@[0] != "XOR"@[0]);
    assert("MUL"@[0] != "LSH"@[0]);
    assert("MUL"@[0] != "RSH"@[0]);
    assert("MUL"@.len() != "EQ"@.len());
    assert("MUL"@.len() != "CE"@.len());
    assert("MUL"@[0] != "CLR"@[0]);
    assert("MUL"@.len() != "BACK"@.len());
    assert("MUL"@[0] != "NEG"@[0]);
    assert("MUL"@[0] != "NOT"@[0]);
    assert("MUL"@[0] != "ROL"@[0]);
    assert("MUL"@[0] != "ROR"@[0]);
    assert("MUL"@.len() != "TOGGLE_HISTORY"@.len());
    assert("MUL"@.len() != "TOGGLE_BITS"@.len());
    assert("MUL"@.len() != "TOGGLE_BITWISE"@.len());
    assert("DIV"@[0] != "MOD"@[0]);
    assert("DIV"@[0] != "AND"@[0]);
    assert("DIV"@.len() != "OR"@.len());
    assert("DIV"@[0] != "XOR"@[0]);
    assert("DIV"@[0] != "LSH"@[0]);
    assert("DIV"@[0] != "RSH"@[0]);
    assert("DIV"@.len() != "EQ"@.len());
    assert("DIV"@.len() != "CE"@.len());
    assert("DIV"@[0] != "CLR"@[0]);
    assert("DIV"@.len() != "BACK"@.len());
    assert("DIV"@[0] != "NEG"@[0]);
    assert("DIV"@[0] != "NOT"@[0]);
    assert("DIV"@[0] != "ROL"@[0]);
    assert("DIV"@[0] != "ROR"@[0]);
    assert("DIV"@.len() != "TOGGLE_HISTORY"@.len());
    assert("DIV"@.len() != "TOGGLE_BITS"@.len());
    assert("DIV"@.len() != "TOGGLE_BITWISE"@.len());
    assert("MOD"@[0] != "AND"@[0]);
    assert("MOD"@.len() != "OR"@.len());
    assert("MOD"@[0] != "XOR"@[0]);
    assert("MOD"@[0] != "LSH"@[0]);
    assert("MOD"@[0] != "RSH"@[0]);
    assert("MOD"@.len() != "EQ"@.len());
    assert("MOD"@.len() != "CE"@.len());
    assert("MOD"@[0] != "CLR"@[0]);
    assert("MOD"@.len() != "BACK"@.len());
    assert("MOD"@[0] != "NEG"@[0]);
    assert("MOD"@[0] != "NOT"@[0]);
    assert("MOD"@[0] != "ROL"@[0]);
    assert("MOD"@[0] != "ROR"@[0]);
    assert("MOD"@.len() != "TOGGLE_HISTORY"@.len());
    assert("MOD"@.len() != "TOGGLE_BITS"@.len());
    assert("MOD"@.len() != "TOGGLE_BITWISE"@.len());
    assert("AND"@.len() != "OR"@.len());
    assert("AND"@[0] != "XOR"@[0]);
    assert("AND"@[0] != "LSH"@[0]);
    assert("AND"@[0] != "RSH"@[0]);
    assert("AND"@.len() != "EQ"@.len());
    assert("AND"@.len() != "CE"@.len());
    assert("AND"@[0] != "CLR"@[0]);
    assert("AND"@.len() != "BACK"@.len());
    assert("AND"@[0] != "NEG"@[0]);
    assert("AND"@[0] != "NOT"@[0]);
    assert("AND"@[0] != "ROL"@[0]);
    assert("AND"@[0] != "ROR"@[0]);
    assert("AND"@.len() != "TOGGLE_HISTORY"@.len());
    assert("AND"@.len() != "TOGGLE_BITS"@.len());
    assert("AND"@.len() != "TOGGLE_BITWISE"@.len());
    assert("OR"@.len() != "XOR"@.len());
    assert("OR"@.len() != "LSH"@.len());
    assert("OR"@.len() != "RSH"@.len());
    assert("OR"@[0] != "EQ"@[0]);
    assert("OR"@[0] != "CE"@[0]);
    assert("OR"@.len() != "CLR"@.len());
    assert("OR"@.len() != "BACK"@.len());
    assert("OR"@.len() != "NEG"@.len());
    assert("OR"@.len() != "NOT"@.len());
    assert("OR"@.len() != "ROL"@.len());
    assert("OR"@.len() != "ROR"@.len());
    assert("OR"@.len() != "TOGGLE_HISTORY"@.len());
    assert("OR"@.len() != "TOGGLE_BITS"@.len());
    assert("OR"@.len() != "TOGGLE_BITWISE"@.len());
    assert("XOR"@[0] != "LSH"@[0]);
    assert("XOR"@[0] != "RSH"@[0]);
    assert("XOR"@.len() != "EQ"@.len());
    assert("XOR"@.len() != "CE"@.len());
    assert("XOR"@[0] != "CLR"@[0]);
    assert("XOR"@.len() != "BACK"@.len());
    assert("XOR"@[0] != "NEG"@[0]);
    assert("XOR"@[0] != "NOT"@[0]);
    assert("XOR"@[0] != "ROL"@[0]);
    assert("XOR"@[0] != "ROR"@[0]);
    assert("XOR"@.len() != "TOGGLE_HISTORY"@.len());
    assert("XOR"@.len() != "TOGGLE_BITS"@.len());
    assert("XOR"@.len() != "TOGGLE_BITWISE"@.len());
    assert("LSH"@[0] != "RSH"@[0]);
    assert("LSH"@.len() != "EQ"@.len());
    assert("LSH"@.len() != "CE"@.len());
    assert("LSH"@[0] != "CLR"@[0]);
    assert("LSH"@.len() != "BACK"@.len());
    assert("LSH"@[0] != "NEG"@[0]);
    assert("LSH"@[0] != "NOT"@[0]);
    assert("LSH"@[0] != "ROL"@[0]);
    assert("LSH"@[0] != "ROR"@[0]);
    assert("LSH"@.len() != "TOGGLE_HISTORY"@.len());
    assert("LSH"@.len() != "TOGGLE_BITS"@.len());
    assert("LSH"@.len() != "TOGGLE_BITWISE"@.len());
    assert("RSH"@.len() != "EQ"@.len());
    assert("RSH"@.len() != "CE"@.len());
    assert("RSH"@[0] != "CLR"@[0]);
    assert("RSH"@.len() != "BACK"@.len());
    assert("RSH"@[0] != "NEG"@[0]);
    assert("RSH"@[0] != "NOT"@[0]);
    assert("RSH"@[1] != "ROL"@[1]);
    assert("RSH"@[1] != "ROR"@[1]);
    assert("RSH"@.len() != "TOGGLE_HISTORY"@.len());
    assert("RSH"@.len() != "TOGGLE_BITS"@.len());
    assert("RSH"@.len() != "TOGGLE_BITWISE"@.len());
    assert("EQ"@[0] != "CE"@[0]);
    assert("EQ"@.len() != "CLR"@.len());
    assert("EQ"@.len() != "BACK"@.len());
    assert("EQ"@.len() != "NEG"@.len());
    assert("EQ"@.len() != "NOT"@.len());
    assert("EQ"@.len() != "ROL"@.len());
    assert("EQ"@.len() != "ROR"@.len());
    assert("EQ"@.len() != "TOGGLE_HISTORY"@.len());
    assert("EQ"@.len() != "TOGGLE_BITS"@.len());
    assert("EQ"@.len() != "TOGGLE_BITWISE"@.len());
    assert("CE"@.len() != "CLR"@.len());
    assert("CE"@.len() != "BACK"@.len());
    assert("CE"@.len() != "NEG"@.len());
    assert("CE"@.len() != "NOT"@.len());
    assert("CE"@.len() != "ROL"@.len());
    assert("CE"@.len() != "ROR"@.len());
    assert("CE"@.len() != "TOGGLE_HISTORY"@.len());
    assert("CE"@.len() != "TOGGLE_BITS"@.len());
    assert("CE"@.len() != "TOGGLE_BITWISE"@.len());
    assert("CLR"@.len() != "BACK"@.len());
    assert("CLR"@[0] != "NEG"@[0]);
    assert("CLR"@[0] != "NOT"@[0]);
    assert("CLR"@[0] != "ROL"@[0]);
    assert("CLR"@[0] != "ROR"@[0]);
    assert("CLR"@.len() != "TOGGLE_HISTORY"@.len());
    assert("CLR"@.len() != "TOGGLE_BITS"@.len());
    assert("CLR"@.len() != "TOGGLE_BITWISE"@.len());
    assert("BACK"@.len() != "NEG"@.len());
    assert("BACK"@.len() != "NOT"@.len());
    assert("BACK"@.len() != "ROL"@.len());
    assert("BACK"@.len() != "ROR"@.len());
    assert("BACK"@.len() != "TOGGLE_HISTORY"@.len());
    assert("BACK"@.len() != "TOGGLE_BITS"@.len());
    assert("BACK"@.len() != "TOGGLE_BITWISE"@.len());
    assert("NEG"@[1] != "NOT"@[1]);
    assert("NEG"@[0] != "ROL"@[0]);
    assert("NEG"@[0] != "ROR"@[0]);
    assert("NEG"@.len() != "TOGGLE_HISTORY"@.len());
    assert("NEG"@.len() != "TOGGLE_BITS"@.len());
    assert("NEG"@.len() != "TOGGLE_BITWISE"@.len());
    assert("NOT"@[0] != "ROL"@[0]);
    assert("NOT"@[0] != "ROR"@[0]);
    assert("NOT"@.len() != "TOGGLE_HISTORY"@.len());
    assert("NOT"@.len() != "TOGGLE_BITS"@.len());
    assert("NOT"@.len() != "TOGGLE_BITWISE"@.len());
    assert("ROL"@[2] != "ROR"@[2]);
    assert("ROL"@.len() != "TOGGLE_HISTORY"@.len());
    assert("ROL"@.len() != "TOGGLE_BITS"@.len());
    assert("ROL"@.len() != "TOGGLE_BITWISE"@.len());
    assert("ROR"@.len() != "TOGGLE_HISTORY"@.len());
    assert("ROR"@.len() != "TOGGLE_BITS"@.len());
    assert("ROR"@.len() != "TOGGLE_BITWISE"@.len());
    assert("TOGGLE_HISTORY"@.len() != "TOGGLE_BITS"@.len());
    assert("TOGGLE_HISTORY"@[7] != "TOGGLE_BITWISE"@[7]);
    assert("TOGGLE_BITS"@.len() != "TOGGLE_BITWISE"@.len());
}

/// Law: each word button selects the word whose bits it names and cuts the
/// value to it; each base button selects the base whose radix it names and
/// keeps the value; neither touches anything else but starts a new number.
pub proof fn law_word_and_base_buttons(st: CalcModel)
    ensures
        raw_step(st, "WORD64"@).word.bits_spec() == 64,
        raw_step(st, "WORD32"@).word.bits_spec() == 32,
        raw_step(st, "WORD16"@).word.bits_spec() == 16,
        raw_step(st, "WORD8"@).word.bits_spec() == 8,
        raw_step(st, "WORD64"@).value == st.value,
        raw_step(st, "WORD32"@).value == st.value & 0xFFFF_FFFF,
        raw_step(st, "WORD16"@).value == st.value & 0xFFFF,
        raw_step(st, "WORD8"@).value == st.value & 0xFF,
        raw_step(st, "BASE16"@).base.radix_spec() == 16,
        raw_step(st, "BASE10"@).base.radix_spec() == 10,
        raw_step(st, "BASE8"@).base.radix_spec() == 8,
        raw_step(st, "BASE2"@).base.radix_spec() == 2,
        raw_step(st, "BASE16"@) == (CalcModel { base: Base::Hex, new_input: true, ..st }),
        raw_step(st, "BASE10"@) == (CalcModel { base: Base::Dec, new_input: true, ..st }),
        raw_step(st, "BASE8"@) == (CalcModel { base: Base::Oct, new_input: true, ..st }),
        raw_step(st, "BASE2"@) == (CalcModel { base: Base::Bin, new_input: true, ..st }),
        raw_step(st, "WORD32"@) == (CalcModel {
            word: WordSize::DWord,
            value: st.value & 0xFFFF_FFFF,
            new_input: true,
            ..st
        }),
        raw_step(st, "WORD16"@) == (CalcModel {
            word: WordSize::Word,
            value: st.value & 0xFFFF,
            new_input: true,
            ..st
        }),
        raw_step(st, "WORD8"@) == (CalcModel {
            word: WordSize::Byte,
            value: st.value & 0xFF,
            new_input: true,
            ..st
        }),
{
    lemma_names_distinct();
    crate::state::lemma_cut_fits(st.value, WordSize::QWord);
}


/// Law: a single hexadecimal digit types that digit, and every editing,
/// operator and `=` button presses its own key.
pub proof fn law_buttons_press_their_keys(st: CalcModel, x: char)
    ensures
        digit_value(x, 16) is Some ==> raw_step(st, seq![x]) == st.input_digit(x),
        raw_step(st, "ADD"@) == st.press_op(Op::Add),
        raw_step(st, "SUB"@) == st.press_op(Op::Sub),
        raw_step(st, "MUL"@) == st.press_op(Op::Mul),
        raw_step(st, "DIV"@) == st.press_op(Op::Div),
        raw_step(st, "MOD"@) == st.press_op(Op::Mod),
        raw_step(st, "AND"@) == st.press_op(Op::And),
        raw_step(st, "OR"@) == st.press_op(Op::Or),
        raw_step(st, "XOR"@) == st.press_op(Op::Xor),
        raw_step(st, "LSH"@) == st.press_op(Op::Lsh),
        raw_step(st, "RSH"@) == st.press_op(Op::Rsh),
        raw_step(st, "EQ"@) == st.press_eq(),
        raw_step(st, "CE"@) == st.press_ce(),
        raw_step(st, "CLR"@) == st.press_c(),
        raw_step(st, "BACK"@) == st.press_back(),
        raw_step(st, "NEG"@) == st.press_negate(),
        raw_step(st, "NOT"@) == st.press_not(),
        raw_step(st, "ROL"@) == st.press_rol(),
        raw_step(st, "ROR"@) == st.press_ror(),
{
    lemma_names_distinct();
}

/// Law: an operator button presses its operator and starts a pending
/// expression whose left side is the current value in the current base and
/// word, and whose operator is the operator's symbol.
pub proof fn law_operator_buttons_start_expressions(m: AppModel)
    ensures
        dispatch_model(m, "ADD"@).st == m.st.press_op(Op::Add),
        dispatch_model(m, "ADD"@).pending == Some(EntryModel {
            lhs: value_text(m.st.value, m.st.base, m.st.word),
            op: "+"@,
            rhs: Seq::empty(),
            result: Seq::empty(),
            complete: false,
        }),
        dispatch_model(m, "SUB"@).st == m.st.press_op(Op::Sub),
        dispatch_model(m, "SUB"@).pending == Some(EntryModel {
            lhs: value_text(m.st.value, m.st.base, m.st.word),
            op: "-"@,
            rhs: Seq::empty(),
            result: Seq::empty(),
            complete: false,
        }),
        dispatch_model(m, "MUL"@).st == m.st.press_op(Op::Mul),
        dispatch_model(m, "MUL"@).pending == Some(EntryModel {
            lhs: value_text(m.st.value, m.st.base, m.st.word),
            op: "×"@,
            rhs: Seq::empty(),
            result: Seq::empty(),
            complete: false,
        }),
        dispatch_model(m, "DIV"@).st == m.st.press_op(Op::Div),
        dispatch_model(m, "DIV"@).pending == Some(EntryModel {
            lhs: value_text(m.st.value, m.st.base, m.st.word),
            op: "÷"@,
            rhs: Seq::empty(),
            result: Seq::empty(),
            complete: false,
        }),
        dispatch_model(m, "MOD"@).st == m.st.press_op(Op::Mod),
        dispatch_model(m, "MOD"@).pending == Some(EntryModel {
            lhs: value_text(m.st.value, m.st.base, m.st.word),
            op: "%"@,
            rhs: Seq::empty(),
            result: Seq::empty(),
            complete: false,
        }),
        dispatch_model(m, "AND"@).st == m.st.press_op(Op::And),
        dispatch_model(m, "AND"@).pending == Some(EntryModel {
            lhs: value_text(m.st.value, m.st.base, m.st.word),
            op: "&"@,
            rhs: Seq::empty(),
            result: Seq::empty(),
            complete: false,
        }),
        dispatch_model(m, "OR"@).st == m.st.press_op(Op::Or),
        dispatch_model(m, "OR"@).pending == Some(EntryModel {
            lhs: value_text(m.st.value, m.st.base, m.st.word),
            op: "|"@,
            rhs: Seq::empty(),
            result: Seq::empty(),
            complete: false,
        }),
        dispatch_model(m, "XOR"@).st == m.st.press_op(Op::Xor),
        dispatch_model(m, "XOR"@).pending == Some(EntryModel {
            lhs: value_text(m.st.value, m.st.base, m.st.word),
            op: "^"@,
            rhs: Seq::empty(),
            result: Seq::empty(),
            complete: false,
        }),
        dispatch_model(m, "LSH"@).st == m.st.press_op(Op::Lsh),
        dispatch_model(m, "LSH"@).pending == Some(EntryModel {
            lhs: value_text(m.st.value, m.st.base, m.st.word),
            op: "<<"@,
            rhs: Seq::empty(),
            result: Seq::empty(),
            complete: false,
        }),
        dispatch_model(m, "RSH"@).st == m.st.press_op(Op::Rsh),
        dispatch_model(m, "RSH"@).pending == Some(EntryModel {
            lhs: value_text(m.st.value, m.st.base, m.st.word),
            op: ">>"@,
            rhs: Seq::empty(),
            result: Seq::empty(),
            complete: false,
        }),
{
    lemma_names_distinct();
    reveal_strlit("+");
    reveal_strlit("-");
    reveal_strlit("×");
    reveal_strlit("÷");
    reveal_strlit("%");
    reveal_strlit("&");
    reveal_strlit("|");
    reveal_strlit("^");
    reveal_strlit("<<");
    reveal_strlit(">>");
}

/// Law: `=` presses `=` on the calculator; with a pending expression it
/// records that expression, completed with the typed right operand and the
/// result, both written in the calculator's current base and word (the
/// result is then exactly what the display shows, unless the operation
/// failed), and clears the pending expression.
pub proof fn law_equals_records_history(m: AppModel)
    ensures
        dispatch_model(m, "EQ"@).st == m.st.press_eq(),
        m.pending is None ==> dispatch_model(m, "EQ"@) == (AppModel { st: m.st.press_eq(), ..m }),
        m.pending is Some ==> ({
            let r = dispatch_model(m, "EQ"@);
            let e = m.pending.unwrap();
            &&& r.pending is None
            &&& r.history == push_history(m.history, r.history.last())
            &&& r.history.last() == (EntryModel {
                lhs: e.lhs,
                op: e.op,
                rhs: value_text(m.st.value, m.st.base, m.st.word),
                result: value_text(r.st.value, m.st.base, m.st.word),
                complete: true,
            })
            &&& !r.st.error ==> r.history.last().result == r.st.display()
        }),
{
    lemma_names_distinct();
    if m.pending is Some {
        let r = dispatch_model(m, "EQ"@);
        let st2 = m.st.press_eq();
        assert(st2.base == m.st.base && st2.word == m.st.word);
        assert(push_history(m.history, r.history.last()) == r.history);
    }
}

/// Law: with the key pressed down, every hexadecimal digit key other than
/// the panel toggles `b`/`B` and Control-`c` types its upper-case digit; the
/// operator keys press their operator; `=` and Enter press `=`; Backspace
/// and Delete press BACK and CE; `q`, Esc and Control-`c` quit; and a key
/// that is not pressed down does nothing.
pub proof fn law_keys(m: AppModel, ev: KeyInput)
    ensures
        !ev.press ==> key_outcome(ev) is Nothing,
        ev.press && (ev.code == Key::Esc || ev.code == Key::Char('q') || (ev.code == Key::Char('c')
            && ev.ctrl)) ==> key_outcome(ev) is Quit,
        forall|c: char|
            #![trigger ascii_upper(c)]
            ev.press && ev.code == Key::Char(c) && (('0' <= c && c <= '9') || ('a' <= c && c <= 'f')
                || ('A' <= c && c <= 'F')) && c != 'b' && c != 'B' && !(c == 'c' && ev.ctrl) ==> {
                &&& key_outcome(ev) == KeyOutcome::Send(seq![ascii_upper(c)])
                &&& dispatch_model(m, seq![ascii_upper(c)]).st == m.st.input_digit(c)
                &&& ascii_upper(c) == c || ascii_upper(c) as int == c as int - 32
            },
        ev.press && ev.code == Key::Char('+') ==> key_outcome(ev) == KeyOutcome::Send("ADD"@),
        ev.press && ev.code == Key::Char('-') ==> key_outcome(ev) == KeyOutcome::Send("SUB"@),
        ev.press && ev.code == Key::Char('*') ==> key_outcome(ev) == KeyOutcome::Send("MUL"@),
        ev.press && ev.code == Key::Char('/') ==> key_outcome(ev) == KeyOutcome::Send("DIV"@),
        ev.press && ev.code == Key::Char('%') ==> key_outcome(ev) == KeyOutcome::Send("MOD"@),
        ev.press && ev.code == Key::Char('&') ==> key_outcome(ev) == KeyOutcome::Send("AND"@),
        ev.press && ev.code == Key::Char('|') ==> key_outcome(ev) == KeyOutcome::Send("OR"@),
        ev.press && ev.code == Key::Char('^') ==> key_outcome(ev) == KeyOutcome::Send("XOR"@),
        ev.press && (ev.code == Key::Char('=') || ev.code == Key::Enter) ==> key_outcome(ev)
            == KeyOutcome::Send("EQ"@),
        ev.press && ev.code == Key::Backspace ==> key_outcome(ev) == KeyOutcome::Send("BACK"@),
        ev.press && ev.code == Key::Delete ==> key_outcome(ev) == KeyOutcome::Send("CE"@),
        ev.press && (ev.code == Key::Char('h') || ev.code == Key::Char('H')) ==> key_outcome(ev)
            == KeyOutcome::Send("TOGGLE_HISTORY"@),
        ev.press && (ev.code == Key::Char('b') || ev.code == Key::Char('B')) ==> key_outcome(ev)
            == KeyOutcome::Send("TOGGLE_BITS"@),
        ev.press && (ev.code == Key::Char('w') || ev.code == Key::Char('W')) ==> key_outcome(ev)
            == KeyOutcome::Send("TOGGLE_BITWISE"@),
{
    lemma_names_distinct();
    assert forall|c: char|
        #![trigger ascii_upper(c)]
        ev.press && ev.code == Key::Char(c) && (('0' <= c && c <= '9') || ('a' <= c && c <= 'f')
            || ('A' <= c && c <= 'F')) && c != 'b' && c != 'B' && !(c == 'c' && ev.ctrl) implies {
            &&& key_outcome(ev) == KeyOutcome::Send(seq![ascii_upper(c)])
            &&& dispatch_model(m, seq![ascii_upper(c)]).st == m.st.input_digit(c)
            &&& ascii_upper(c) == c || ascii_upper(c) as int == c as int - 32
        } by {
        let u = ascii_upper(c);
        assert(seq![u].len() == 1);
        assert(seq![u][0] == u);
        assert(digit_value(u, 16) is Some);
        assert(ascii_upper(u) == u);
    }
}


/// Law: CE and CLR clear the entry or everything on the calculator and drop
/// the pending expression, keeping the history and the panels.
pub proof fn law_clear_buttons(m: AppModel)
    ensures
        dispatch_model(m, "CE"@) == (AppModel { st: m.st.press_ce(), pending: None, ..m }),
        dispatch_model(m, "CLR"@) == (AppModel { st: m.st.press_c(), pending: None, ..m }),
{
    lemma_names_distinct();
}

/// Law: a name that is no button and no single hexadecimal digit changes
/// nothing.
pub proof fn law_unknown_names_do_nothing(m: AppModel, a: Seq<char>)
    requires
        a != "BASE16"@,
        a != "BASE10"@,
        a != "BASE8"@,
        a != "BASE2"@,
        a != "WORD64"@,
        a != "WORD32"@,
        a != "WORD16"@,
        a != "WORD8"@,
        a != "ADD"@,
        a != "SUB"@,
        a != "MUL"@,
        a != "DIV"@,
        a != "MOD"@,
        a != "AND"@,
        a != "OR"@,
        a != "XOR"@,
        a != "LSH"@,
        a != "RSH"@,
        a != "EQ"@,
        a != "CE"@,
        a != "CLR"@,
        a != "BACK"@,
        a != "NEG"@,
        a != "NOT"@,
        a != "ROL"@,
        a != "ROR"@,
        a != "TOGGLE_HISTORY"@,
        a != "TOGGLE_BITS"@,
        a != "TOGGLE_BITWISE"@,
        !(a.len() == 1 && digit_value(a[0], 16) is Some),
    ensures
        dispatch_model(m, a) == m,
{
}

/// Law: a digit key in either case is the same digit, and the upper-case form
/// of a character is never a lower-case letter, keeps every character that
/// is not a lower-case letter, and keeps a letter's place in the alphabet.
pub proof fn law_digit_case(c: char, radix: nat)
    ensures
        'a' <= c && c <= 'z' ==> digit_value(c, radix) == digit_value(ascii_upper(c), radix),
        !('a' <= ascii_upper(c) && ascii_upper(c) <= 'z'),
        !('a' <= c && c <= 'z') ==> ascii_upper(c) == c,
        'a' <= c && c <= 'z' ==> 'A' <= ascii_upper(c) && ascii_upper(c) <= 'Z' && ascii_upper(c)
            as int - 'A' as int == c as int - 'a' as int,
{
}


/// Law: exactly one base button and one word button show as active, those
/// of the current base and word size.
pub proof fn law_active_buttons(st: CalcModel)
    ensures
        active_name(st, "BASE16"@) <==> st.base == Base::Hex,
        active_name(st, "BASE10"@) <==> st.base == Base::Dec,
        active_name(st, "BASE8"@) <==> st.base == Base::Oct,
        active_name(st, "BASE2"@) <==> st.base == Base::Bin,
        active_name(st, "WORD64"@) <==> st.word == WordSize::QWord,
        active_name(st, "WORD32"@) <==> st.word == WordSize::DWord,
        active_name(st, "WORD16"@) <==> st.word == WordSize::Word,
        active_name(st, "WORD8"@) <==> st.word == WordSize::Byte,
{
    lemma_names_distinct();
    reveal_strlit("BASE");
    reveal_strlit("WORD");
    reveal_strlit("BASE16");
    reveal_strlit("BASE10");
    reveal_strlit("BASE8");
    reveal_strlit("BASE2");
    reveal_strlit("WORD64");
    reveal_strlit("WORD32");
    reveal_strlit("WORD16");
    reveal_strlit("WORD8");
    assert(digits_of(16, 10) =~= seq!['1', '6']) by {
        assert(digits_of(1, 10) == seq![digit_char(1)]);
    }
    assert(digits_of(10, 10) =~= seq!['1', '0']) by {
        assert(digits_of(1, 10) == seq![digit_char(1)]);
    }
    assert(digits_of(64, 10) =~= seq!['6', '4']) by {
        assert(digits_of(6, 10) == seq![digit_char(6)]);
    }
    assert(digits_of(32, 10) =~= seq!['3', '2']) by {
        assert(digits_of(3, 10) == seq![digit_char(3)]);
    }
    assert(digits_of(8, 10) =~= seq!['8']);
    assert(digits_of(2, 10) =~= seq!['2']);
    assert("BASE"@ + seq!['1', '6'] =~= "BASE16"@);
    assert("BASE"@ + seq!['1', '0'] =~= "BASE10"@);
    assert("BASE"@ + seq!['8'] =~= "BASE8"@);
    assert("BASE"@ + seq!['2'] =~= "BASE2"@);
    assert("WORD"@ + seq!['6', '4'] =~= "WORD64"@);
    assert("WORD"@ + seq!['3', '2'] =~= "WORD32"@);
    assert("WORD"@ + seq!['1', '6'] =~= "WORD16"@);
    assert("WORD"@ + seq!['8'] =~= "WORD8"@);
}

/// Law: in hexadecimal no digit button is greyed out; otherwise exactly the
/// digit buttons whose digit is at least the radix are, a letter always
/// counting as ten or more; a label of more than one character never is.
pub proof fn law_disabled_buttons(st: CalcModel, l: Seq<char>)
    ensures
        l.len() != 1 ==> !disabled_label(st, l),
        st.base == Base::Hex ==> !disabled_label(st, l),
        l.len() == 1 && '0' <= l[0] && l[0] <= '9' ==> (disabled_label(st, l) <==> l[0] as int
            - '0' as int >= st.base.radix_spec()),
        l.len() == 1 && 'A' <= l[0] && l[0] <= 'F' ==> (disabled_label(st, l) <==> st.base
            != Base::Hex),
{
}

/// Law: the toolbar chip, button or bit cell found under a point is the
/// first one in the list whose region holds the point.
pub proof fn law_first_region_wins(
    toggles: Seq<ToggleHit>,
    buttons: Seq<BtnHit>,
    bits: Seq<BitHit>,
    x: u16,
    y: u16,
    i: int,
)
    requires
        0 <= i,
    ensures
        i < toggles.len() && in_rect(toggles[i].x1, toggles[i].y1, toggles[i].x2, toggles[i].y2, x, y)
            && (forall|j: int|
            0 <= j < i ==> !in_rect(
                #[trigger] toggles[j].x1,
                toggles[j].y1,
                toggles[j].x2,
                toggles[j].y2,
                x,
                y,
            )) ==> toggle_at(toggles, x, y) == Some(toggles[i].id),
        i < buttons.len() && in_rect(buttons[i].x1, buttons[i].y1, buttons[i].x2, buttons[i].y2, x, y)
            && (forall|j: int|
            0 <= j < i ==> !in_rect(
                #[trigger] buttons[j].x1,
                buttons[j].y1,
                buttons[j].x2,
                buttons[j].y2,
                x,
                y,
            )) ==> button_at(buttons, x, y) == Some(buttons[i].action@),
        i < bits.len() && y == bits[i].y && x >= bits[i].x1 && x <= bits[i].x2 && (forall|j: int|
            0 <= j < i ==> !(y == #[trigger] bits[j].y && x >= bits[j].x1 && x <= bits[j].x2))
            ==> bit_at(bits, x, y) == Some(bits[i].bit),
    decreases i,
{
    if i > 0 {
        if toggles.len() > 0 {
            let t = toggles.drop_first();
            assert forall|j: int| 0 <= j < t.len() implies t[j] == toggles[j + 1] by {}
        }
        if buttons.len() > 0 {
            let t = buttons.drop_first();
            assert forall|j: int| 0 <= j < t.len() implies t[j] == buttons[j + 1] by {}
        }
        if bits.len() > 0 {
            let t = bits.drop_first();
            assert forall|j: int| 0 <= j < t.len() implies t[j] == bits[j + 1] by {}
        }
        law_first_region_wins(
            if toggles.len() > 0 { toggles.drop_first() } else { toggles },
            if buttons.len() > 0 { buttons.drop_first() } else { buttons },
            if bits.len() > 0 { bits.drop_first() } else { bits },
            x,
            y,
            i - 1,
        );
        if i < toggles.len() && in_rect(toggles[i].x1, toggles[i].y1, toggles[i].x2, toggles[i].y2, x, y)
            && (forall|j: int|
            0 <= j < i ==> !in_rect(
                #[trigger] toggles[j].x1,
                toggles[j].y1,
                toggles[j].x2,
                toggles[j].y2,
                x,
                y,
            )) {
            assert(!in_rect(toggles[0].x1, toggles[0].y1, toggles[0].x2, toggles[0].y2, x, y));
            let t = toggles.drop_first();
            assert(t[i - 1] == toggles[i]);
            assert forall|j: int| 0 <= j < i - 1 implies !in_rect(
                #[trigger] t[j].x1,
                t[j].y1,
                t[j].x2,
                t[j].y2,
                x,
                y,
            ) by {
                assert(t[j] == toggles[j + 1]);
                assert(!in_rect(toggles[j + 1].x1, toggles[j + 1].y1, toggles[j + 1].x2, toggles[j + 1].y2, x, y));
            }
        }
        if i < buttons.len() && in_rect(buttons[i].x1, buttons[i].y1, buttons[i].x2, buttons[i].y2, x, y)
            && (forall|j: int|
            0 <= j < i ==> !in_rect(
                #[trigger] buttons[j].x1,
                buttons[j].y1,
                buttons[j].x2,
                buttons[j].y2,
                x,
                y,
            )) {
            assert(!in_rect(buttons[0].x1, buttons[0].y1, buttons[0].x2, buttons[0].y2, x, y));
            let t = buttons.drop_first();
            assert(t[i - 1] == buttons[i]);
            assert forall|j: int| 0 <= j < i - 1 implies !in_rect(
                #[trigger] t[j].x1,
                t[j].y1,
                t[j].x2,
                t[j].y2,
                x,
                y,
            ) by {
                assert(t[j] == buttons[j + 1]);
                assert(!in_rect(buttons[j + 1].x1, buttons[j + 1].y1, buttons[j + 1].x2, buttons[j + 1].y2, x, y));
            }
        }
        if i < bits.len() && y == bits[i].y && x >= bits[i].x1 && x <= bits[i].x2 && (forall|j: int|
            0 <= j < i ==> !(y == #[trigger] bits[j].y && x >= bits[j].x1 && x <= bits[j].x2)) {
            assert(!(y == bits[0].y && x >= bits[0].x1 && x <= bits[0].x2));
            let t = bits.drop_first();
            assert(t[i - 1] == bits[i]);
            assert forall|j: int| 0 <= j < i - 1 implies !(y == #[trigger] t[j].y && x >= t[j].x1 && x
                <= t[j].x2) by {
                assert(t[j] == bits[j + 1]);
                assert(!(y == bits[j + 1].y && x >= bits[j + 1].x1 && x <= bits[j + 1].x2));
            }
        }
    }
}


/// Law: a click is acted on only when the left button goes down; a toolbar
/// chip under it wins over everything and toggles its panel, then a button
/// under it is pressed, then a bit-view cell under it flips its bit;
/// elsewhere nothing happens.
pub proof fn law_click(
    m: AppModel,
    toggles: Seq<ToggleHit>,
    buttons: Seq<BtnHit>,
    bits: Seq<BitHit>,
    ev: MouseInput,
)
    ensures
        !ev.left_down ==> click_model(m, toggles, buttons, bits, ev) == m,
        ev.left_down && toggle_at(toggles, ev.column, ev.row) == Some(ToggleId::History) ==> click_model(
            m,
            toggles,
            buttons,
            bits,
            ev,
        ) == dispatch_model(m, "TOGGLE_HISTORY"@),
        ev.left_down && toggle_at(toggles, ev.column, ev.row) == Some(ToggleId::BitView) ==> click_model(
            m,
            toggles,
            buttons,
            bits,
            ev,
        ) == dispatch_model(m, "TOGGLE_BITS"@),
        ev.left_down && toggle_at(toggles, ev.column, ev.row) == Some(ToggleId::Bitwise) ==> click_model(
            m,
            toggles,
            buttons,
            bits,
            ev,
        ) == dispatch_model(m, "TOGGLE_BITWISE"@),
        ev.left_down && toggle_at(toggles, ev.column, ev.row) is None && button_at(
            buttons,
            ev.column,
            ev.row,
        ) is Some ==> click_model(m, toggles, buttons, bits, ev) == dispatch_model(
            m,
            button_at(buttons, ev.column, ev.row).unwrap(),
        ),
        ev.left_down && toggle_at(toggles, ev.column, ev.row) is None && button_at(
            buttons,
            ev.column,
            ev.row,
        ) is None && bit_at(bits, ev.column, ev.row) is Some ==> click_model(
            m,
            toggles,
            buttons,
            bits,
            ev,
        ) == (AppModel { st: m.st.toggle_bit(bit_at(bits, ev.column, ev.row).unwrap()), ..m }),
        ev.left_down && toggle_at(toggles, ev.column, ev.row) is None && button_at(
            buttons,
            ev.column,
            ev.row,
        ) is None && bit_at(bits, ev.column, ev.row) is None ==> click_model(
            m,
            toggles,
            buttons,
            bits,
            ev,
        ) == m,
{
}

/// Law: in a radix up to sixteen a character is a digit of value `d` exactly
/// when `d` is below the radix and the character is that digit's upper-case
/// character, or, for a letter, its lower-case form.
pub proof fn law_digit_values(c: char, d: nat, radix: nat)
    requires
        2 <= radix <= 16,
    ensures
        digit_value(c, radix) == Some(d) <==> (d < radix && (c == digit_char(d) || (d >= 10 && c as int
            == digit_char(d) as int + 32))),
{
}

/// Law: a number may carry one leading `+`; the empty text, a lone `+`, and
/// a text starting with `-` read as no number.
pub proof fn law_literal_signs(s: Seq<char>, radix: nat)
    requires
        2 <= radix <= 16,
    ensures
        s.len() > 0 && s[0] != '+' ==> literal_value(seq!['+'] + s, radix) == literal_value(s, radix),
        literal_value(Seq::empty(), radix) is None,
        literal_value(seq!['+'], radix) is None,
        s.len() > 0 && s[0] == '-' ==> literal_value(s, radix) is None && parse_u64_spec(s, radix)
            is None,
{
    assert((seq!['+'] + s).drop_first() =~= s);
    assert(seq!['+'].drop_first() =~= Seq::<char>::empty());
    if s.len() > 0 && s[0] == '-' {
        crate::radix::lemma_first_digit(s, radix);
    }
}

} // verus!
