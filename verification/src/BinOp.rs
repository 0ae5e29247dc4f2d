//! BinOp: the closed catalog of binary operators available in C, each with a
//! canonical text form and a parse-from-text constructor.

use vstd::prelude::*;
use vstd::string::StringExecFns;

use crate::text::str_eq;

verus! {

/// Binary opcodes which a `BinarySymExpr` may combine two operands with.
#[derive(Clone, Copy, PartialEq, Eq, Structural, Debug)]
pub enum Opcode {
    Mul,
    Div,
    Rem,
    Add,
    Sub,
    Shl,
    Shr,
    LT,
    GT,
    LE,
    GE,
    EQ,
    NE,
    And,
    Xor,
    Or,
    LAnd,
    LOr,
    Assign,
}

/// Canonical text of an opcode, as it appears in C source.
pub open spec fn spec_op_text(op: Opcode) -> Seq<char> {
    match op {
        Opcode::Mul => "*"@,
        Opcode::Div => "/"@,
        Opcode::Rem => "%"@,
        Opcode::Add => "+"@,
        Opcode::Sub => "-"@,
        Opcode::Shl => "<<"@,
        Opcode::Shr => ">>"@,
        Opcode::LT => "<"@,
        Opcode::GT => ">"@,
        Opcode::LE => "<="@,
        Opcode::GE => ">="@,
        Opcode::EQ => "=="@,
        Opcode::NE => "!="@,
        Opcode::And => "&"@,
        Opcode::Xor => "^"@,
        Opcode::Or => "|"@,
        Opcode::LAnd => "&&"@,
        Opcode::LOr => "||"@,
        Opcode::Assign => "="@,
    }
}

/// The opcode whose canonical text is `s`, if any; the exact inverse of
/// `spec_op_text`.
pub open spec fn spec_parse_op(s: Seq<char>) -> Option<Opcode> {
    if s == spec_op_text(Opcode::Mul) {
        Some(Opcode::Mul)
    } else if s == spec_op_text(Opcode::Div) {
        Some(Opcode::Div)
    } else if s == spec_op_text(Opcode::Rem) {
        Some(Opcode::Rem)
    } else if s == spec_op_text(Opcode::Add) {
        Some(Opcode::Add)
    } else if s == spec_op_text(Opcode::Sub) {
        Some(Opcode::Sub)
    } else if s == spec_op_text(Opcode::Shl) {
        Some(Opcode::Shl)
    } else if s == spec_op_text(Opcode::Shr) {
        Some(Opcode::Shr)
    } else if s == spec_op_text(Opcode::LT) {
        Some(Opcode::LT)
    } else if s == spec_op_text(Opcode::GT) {
        Some(Opcode::GT)
    } else if s == spec_op_text(Opcode::LE) {
        Some(Opcode::LE)
    } else if s == spec_op_text(Opcode::GE) {
        Some(Opcode::GE)
    } else if s == spec_op_text(Opcode::EQ) {
        Some(Opcode::EQ)
    } else if s == spec_op_text(Opcode::NE) {
        Some(Opcode::NE)
    } else if s == spec_op_text(Opcode::And) {
        Some(Opcode::And)
    } else if s == spec_op_text(Opcode::Xor) {
        Some(Opcode::Xor)
    } else if s == spec_op_text(Opcode::Or) {
        Some(Opcode::Or)
    } else if s == spec_op_text(Opcode::LAnd) {
        Some(Opcode::LAnd)
    } else if s == spec_op_text(Opcode::LOr) {
        Some(Opcode::LOr)
    } else if s == spec_op_text(Opcode::Assign) {
        Some(Opcode::Assign)
    } else {
        None
    }
}

impl Opcode {
    /// Parse an operator from its canonical text; `None` when the text is
    /// not one of the catalog's members.
    pub fn getOpcode(opcode: &str) -> (r: Option<Opcode>)
        ensures
            r == spec_parse_op(opcode@),
    {
        if str_eq(opcode, "*") {
            Some(Opcode::Mul)
        } else if str_eq(opcode, "/") {
            Some(Opcode::Div)
        } else if str_eq(opcode, "%") {
            Some(Opcode::Rem)
        } else if str_eq(opcode, "+") {
            Some(Opcode::Add)
        } else if str_eq(opcode, "-") {
            Some(Opcode::Sub)
        } else if str_eq(opcode, "<<") {
            Some(Opcode::Shl)
        } else if str_eq(opcode, ">>") {
            Some(Opcode::Shr)
        } else if str_eq(opcode, "<") {
            Some(Opcode::LT)
        } else if str_eq(opcode, ">") {
            Some(Opcode::GT)
        } else if str_eq(opcode, "<=") {
            Some(Opcode::LE)
        } else if str_eq(opcode, ">=") {
            Some(Opcode::GE)
        } else if str_eq(opcode, "==") {
            Some(Opcode::EQ)
        } else if str_eq(opcode, "!=") {
            Some(Opcode::NE)
        } else if str_eq(opcode, "&") {
            Some(Opcode::And)
        } else if str_eq(opcode, "^") {
            Some(Opcode::Xor)
        } else if str_eq(opcode, "|") {
            Some(Opcode::Or)
        } else if str_eq(opcode, "&&") {
            Some(Opcode::LAnd)
        } else if str_eq(opcode, "||") {
            Some(Opcode::LOr)
        } else if str_eq(opcode, "=") {
            Some(Opcode::Assign)
        } else {
            None
        }
    }

    /// Canonical text of this operator.
    pub fn render(&self) -> (r: String)
        ensures
            r@ == spec_op_text(*self),
    {
        match self {
            Opcode::Mul => String::from_str("*"),
            Opcode::Div => String::from_str("/"),
            Opcode::Rem => String::from_str("%"),
            Opcode::Add => String::from_str("+"),
            Opcode::Sub => String::from_str("-"),
            Opcode::Shl => String::from_str("<<"),
            Opcode::Shr => String::from_str(">>"),
            Opcode::LT => String::from_str("<"),
            Opcode::GT => String::from_str(">"),
            Opcode::LE => String::from_str("<="),
            Opcode::GE => String::from_str(">="),
            Opcode::EQ => String::from_str("=="),
            Opcode::NE => String::from_str("!="),
            Opcode::And => String::from_str("&"),
            Opcode::Xor => String::from_str("^"),
            Opcode::Or => String::from_str("|"),
            Opcode::LAnd => String::from_str("&&"),
            Opcode::LOr => String::from_str("||"),
            Opcode::Assign => String::from_str("="),
        }
    }
}

/// Round-trip law of the operator catalog: parsing the canonical text of any
/// operator yields that operator back, and any text that parses at all is
/// the canonical text of the operator it parses to.
pub proof fn lemma_opcode_round_trip()
    ensures
        forall|op: Opcode| #[trigger] spec_parse_op(spec_op_text(op)) == Some(op),
        forall|s: Seq<char>, op: Opcode| spec_parse_op(s) == Some(op) ==> spec_op_text(op) == s,
{
    broadcast use vstd::string::group_string_axioms;

    reveal_strlit("*");
    reveal_strlit("/");
    reveal_strlit("%");
    reveal_strlit("+");
    reveal_strlit("-");
    reveal_strlit("<<");
    reveal_strlit(">>");
    reveal_strlit("<");
    reveal_strlit(">");
    reveal_strlit("<=");
    reveal_strlit(">=");
    reveal_strlit("==");
    reveal_strlit("!=");
    reveal_strlit("&");
    reveal_strlit("^");
    reveal_strlit("|");
    reveal_strlit("&&");
    reveal_strlit("||");
    reveal_strlit("=");
    assert("*"@.len() == 1 && "*"@[0] == '*');
    assert("/"@.len() == 1 && "/"@[0] == '/');
    assert("%"@.len() == 1 && "%"@[0] == '%');
    assert("+"@.len() == 1 && "+"@[0] == '+');
    assert("-"@.len() == 1 && "-"@[0] == '-');
    assert("<<"@.len() == 2 && "<<"@[0] == '<' && "<<"@[1] == '<');
    assert(">>"@.len() == 2 && ">>"@[0] == '>' && ">>"@[1] == '>');
    assert("<"@.len() == 1 && "<"@[0] == '<');
    assert(">"@.len() == 1 && ">"@[0] == '>');
    assert("<="@.len() == 2 && "<="@[0] == '<' && "<="@[1] == '=');
    assert(">="@.len() == 2 && ">="@[0] == '>' && ">="@[1] == '=');
    assert("=="@.len() == 2 && "=="@[0] == '=' && "=="@[1] == '=');
    assert("!="@.len() == 2 && "!="@[0] == '!' && "!="@[1] == '=');
    assert("&"@.len() == 1 && "&"@[0] == '&');
    assert("^"@.len() == 1 && "^"@[0] == '^');
    assert("|"@.len() == 1 && "|"@[0] == '|');
    assert("&&"@.len() == 2 && "&&"@[0] == '&' && "&&"@[1] == '&');
    assert("||"@.len() == 2 && "||"@[0] == '|' && "||"@[1] == '|');
    assert("="@.len() == 1 && "="@[0] == '=');
    assert forall|op: Opcode| #[trigger] spec_parse_op(spec_op_text(op)) == Some(op) by {
        match op {
            Opcode::Mul => {
                assert(spec_parse_op(spec_op_text(Opcode::Mul)) == Some(Opcode::Mul));
            },
            Opcode::Div => {
                assert(spec_parse_op(spec_op_text(Opcode::Div)) == Some(Opcode::Div));
            },
            Opcode::Rem => {
                assert(spec_parse_op(spec_op_text(Opcode::Rem)) == Some(Opcode::Rem));
            },
            Opcode::Add => {
                assert(spec_parse_op(spec_op_text(Opcode::Add)) == Some(Opcode::Add));
            },
            Opcode::Sub => {
                assert(spec_parse_op(spec_op_text(Opcode::Sub)) == Some(Opcode::Sub));
            },
            Opcode::Shl => {
                assert(spec_parse_op(spec_op_text(Opcode::Shl)) == Some(Opcode::Shl));
            },
            Opcode::Shr => {
                assert(spec_parse_op(spec_op_text(Opcode::Shr)) == Some(Opcode::Shr));
            },
            Opcode::LT => {
                assert(spec_parse_op(spec_op_text(Opcode::LT)) == Some(Opcode::LT));
            },
            Opcode::GT => {
                assert(spec_parse_op(spec_op_text(Opcode::GT)) == Some(Opcode::GT));
            },
            Opcode::LE => {
                assert(spec_parse_op(spec_op_text(Opcode::LE)) == Some(Opcode::LE));
            },
            Opcode::GE => {
                assert(spec_parse_op(spec_op_text(Opcode::GE)) == Some(Opcode::GE));
            },
            Opcode::EQ => {
                assert(spec_parse_op(spec_op_text(Opcode::EQ)) == Some(Opcode::EQ));
            },
            Opcode::NE => {
                assert(spec_parse_op(spec_op_text(Opcode::NE)) == Some(Opcode::NE));
            },
            Opcode::And => {
                assert(spec_parse_op(spec_op_text(Opcode::And)) == Some(Opcode::And));
            },
            Opcode::Xor => {
                assert(spec_parse_op(spec_op_text(Opcode::Xor)) == Some(Opcode::Xor));
            },
            Opcode::Or => {
                assert(spec_parse_op(spec_op_text(Opcode::Or)) == Some(Opcode::Or));
            },
            Opcode::LAnd => {
                assert(spec_parse_op(spec_op_text(Opcode::LAnd)) == Some(Opcode::LAnd));
            },
            Opcode::LOr => {
                assert(spec_parse_op(spec_op_text(Opcode::LOr)) == Some(Opcode::LOr));
            },
            Opcode::Assign => {
                assert(spec_parse_op(spec_op_text(Opcode::Assign)) == Some(Opcode::Assign));
            },
        }
    }
}


/// Every operator's canonical text holds atom characters only: no spaces
/// and no parentheses.
pub proof fn lemma_op_text_atom(op: Opcode)
    ensures
        crate::text::atom_text(spec_op_text(op)),
{
    broadcast use vstd::string::group_string_axioms;

    reveal_strlit("*");
    reveal_strlit("/");
    reveal_strlit("%");
    reveal_strlit("+");
    reveal_strlit("-");
    reveal_strlit("<<");
    reveal_strlit(">>");
    reveal_strlit("<");
    reveal_strlit(">");
    reveal_strlit("<=");
    reveal_strlit(">=");
    reveal_strlit("==");
    reveal_strlit("!=");
    reveal_strlit("&");
    reveal_strlit("^");
    reveal_strlit("|");
    reveal_strlit("&&");
    reveal_strlit("||");
    reveal_strlit("=");
    assert("*"@.len() == 1 && "*"@[0] == '*');
    assert("/"@.len() == 1 && "/"@[0] == '/');
    assert("%"@.len() == 1 && "%"@[0] == '%');
    assert("+"@.len() == 1 && "+"@[0] == '+');
    assert("-"@.len() == 1 && "-"@[0] == '-');
    assert("<<"@.len() == 2 && "<<"@[0] == '<' && "<<"@[1] == '<');
    assert(">>"@.len() == 2 && ">>"@[0] == '>' && ">>"@[1] == '>');
    assert("<"@.len() == 1 && "<"@[0] == '<');
    assert(">"@.len() == 1 && ">"@[0] == '>');
    assert("<="@.len() == 2 && "<="@[0] == '<' && "<="@[1] == '=');
    assert(">="@.len() == 2 && ">="@[0] == '>' && ">="@[1] == '=');
    assert("=="@.len() == 2 && "=="@[0] == '=' && "=="@[1] == '=');
    assert("!="@.len() == 2 && "!="@[0] == '!' && "!="@[1] == '=');
    assert("&"@.len() == 1 && "&"@[0] == '&');
    assert("^"@.len() == 1 && "^"@[0] == '^');
    assert("|"@.len() == 1 && "|"@[0] == '|');
    assert("&&"@.len() == 2 && "&&"@[0] == '&' && "&&"@[1] == '&');
    assert("||"@.len() == 2 && "||"@[0] == '|' && "||"@[1] == '|');
    assert("="@.len() == 1 && "="@[0] == '=');
    match op {
        Opcode::Mul => {},
        Opcode::Div => {},
        Opcode::Rem => {},
        Opcode::Add => {},
        Opcode::Sub => {},
        Opcode::Shl => {},
        Opcode::Shr => {},
        Opcode::LT => {},
        Opcode::GT => {},
        Opcode::LE => {},
        Opcode::GE => {},
        Opcode::EQ => {},
        Opcode::NE => {},
        Opcode::And => {},
        Opcode::Xor => {},
        Opcode::Or => {},
        Opcode::LAnd => {},
        Opcode::LOr => {},
        Opcode::Assign => {},
    }
}

} // verus!
