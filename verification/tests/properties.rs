//! Scenario tests: operator round trips, ranges and midpoints, rendering
//! of boundary corner-case tests, declaration rendering, and pair lookup.
#![allow(non_snake_case)]

use symi::generate::{build_corner_test, footer_text, fuzz_text, header_text, remained_rules_text,
    CornerCase};
use symi::BinOp::Opcode;
use symi::DataType::CDataTypes;
use symi::Draw::Draw;
use symi::Expr::{BinarySymExpr, ChainedBSE, Operand};
use symi::Symbol::{Conc, Sym};
use symi::utils::{search_pair_of_types, set_of_syms};

#[test]
fn opcode_round_trip_all_catalog_texts() {
    let texts = vec![
        "*", "/", "%", "+", "-", "<<", ">>", "<", ">", "<=", ">=", "==", "!=", "&", "^", "|",
        "&&", "||", "=",
    ];
    for text in texts {
        let op = Opcode::getOpcode(text).unwrap();
        assert_eq!(op.render(), text);
    }
}

#[test]
fn opcode_parse_less_or_equal() {
    let op = Opcode::getOpcode("<=").unwrap();
    assert!(matches!(op, Opcode::LE));
    assert_eq!(op.render(), "<=");
}

#[test]
fn opcode_unknown_text_is_rejected() {
    assert!(Opcode::getOpcode("**").is_none());
    assert!(Opcode::getOpcode("").is_none());
    assert!(Opcode::getOpcode("<=>").is_none());
}

#[test]
fn type_lookup_and_rejection() {
    assert!(matches!(CDataTypes::getType("unsigned int"), Some(CDataTypes::UnsignedInt)));
    assert!(matches!(CDataTypes::getType("signed int"), Some(CDataTypes::Int)));
    assert!(matches!(CDataTypes::getType("long double"), Some(CDataTypes::LongDouble)));
    assert!(CDataTypes::getType("banana").is_none());
    assert!(CDataTypes::getType("").is_none());
    // An unknown type name never silently defaults a symbol's type.
    assert!(Sym::new("x", "banana").is_none());
}

#[test]
fn ranges_and_midpoints() {
    assert_eq!(CDataTypes::UnsignedInt.getRange(), (0, 4294967295));
    assert_eq!(CDataTypes::Int.getRange(), (-2147483648, 2147483647));
    assert_eq!(CDataTypes::Short.getRange(), (-32768, 32767));
    assert_eq!(CDataTypes::UnsignedShort.getRange(), (0, 65535));
    assert_eq!(CDataTypes::SignedChar.getRange(), (-128, 127));
    assert_eq!(CDataTypes::UnsignedChar.getRange(), (0, 255));
    assert_eq!(CDataTypes::Char.getRange(), (0, 255));

    assert_eq!(CDataTypes::UnsignedInt.midpoint(), 2147483647);
    assert_eq!(CDataTypes::Int.midpoint(), -1);
    assert_eq!(CDataTypes::Short.midpoint(), -1);
    assert_eq!(CDataTypes::SignedChar.midpoint(), -1);
    assert_eq!(CDataTypes::UnsignedShort.midpoint(), 32767);
    assert_eq!(CDataTypes::UnsignedChar.midpoint(), 127);
    assert_eq!(CDataTypes::Char.midpoint(), 127);
}

#[test]
fn corner_test_for_unsigned_int_pair() {
    let u1 = Sym::new("u1", "unsigned int").unwrap();
    let u2 = Sym::new("u2", "unsigned int").unwrap();
    match build_corner_test(&u1, &u2, Opcode::NE) {
        CornerCase::SameType(t) => {
            assert_eq!(t.Conditional.render(), "((u1 <= 2147483644) && (u2 >= 2147483650))");
            assert_eq!(t.Assertion.render(), "(u1 != u2)");
            assert_eq!(
                t.render(),
                "\n  if ((u1 <= 2147483644) && (u2 >= 2147483650)) {\n      \
                 clang_analyzer_eval(u1 != u2);\n  }\n  "
            );
        },
        _ => panic!("a same-typed pair must yield a test"),
    }
}

#[test]
fn corner_test_for_cross_typed_pair_is_a_no_op() {
    let s = Sym::new("s1", "int").unwrap();
    let u = Sym::new("u1", "unsigned int").unwrap();
    assert!(matches!(build_corner_test(&s, &u, Opcode::EQ), CornerCase::CrossTypeLowerRankFirst));
    assert!(matches!(build_corner_test(&u, &s, Opcode::EQ), CornerCase::CrossTypeHigherRankFirst));
}

#[test]
fn value_rendering_keeps_operand_order() {
    let x = Sym::new("x", "int").unwrap();
    let y = Sym::new("y", "int").unwrap();
    let xy = BinarySymExpr::new(
        &Operand::Symbol(x.clone()),
        &Operand::Symbol(y.clone()),
        Opcode::Sub,
    );
    let yx = BinarySymExpr::new(
        &Operand::Symbol(y.clone()),
        &Operand::Symbol(x.clone()),
        Opcode::Sub,
    );
    assert_eq!(xy.render(), "(x - y)");
    assert_eq!(yx.render(), "(y - x)");
    assert_ne!(xy.render(), yx.render());
}

#[test]
fn declaration_rendering() {
    let x = Sym::new("x", "unsigned int").unwrap();
    assert_eq!(x.declare(), "unsigned int x");
    let c = Conc::new(42, CDataTypes::Int);
    assert_eq!(c.declare(), "42");
    let e = BinarySymExpr::new(
        &Operand::Symbol(x.clone()),
        &Operand::Concrete(c.clone()),
        Opcode::Add,
    );
    // A composite expression always declares nothing.
    assert_eq!(e.declare(), "");
    assert_eq!(Operand::Expr(e.clone()).declare(), "");
}

#[test]
fn literal_rendering_edges() {
    assert_eq!(Conc::new(0, CDataTypes::Int).render(), "0");
    assert_eq!(Conc::new(-128, CDataTypes::SignedChar).render(), "-128");
    assert_eq!(Conc::new(4294967295, CDataTypes::UnsignedInt).render(), "4294967295");
    assert_eq!(Conc::new(i64::MIN, CDataTypes::Int).render(), "-9223372036854775808");
    assert_eq!(Conc::new(i64::MAX, CDataTypes::Int).render(), "9223372036854775807");
}

#[test]
fn constraints_around_inside_and_outside_the_range() {
    let s = Sym::new("x", "int").unwrap();
    let inside = Sym::getConstraintsAround(&s, 0, 1);
    assert_eq!(inside.render(), "((x >= -1) && (x <= 1))");

    // Outside the representable range the bounds are clamped, so the
    // interval stays well-formed instead of wrapping or crashing.
    let u = Sym::new("x", "unsigned int").unwrap();
    let clamped = Sym::getConstraintsAround(&u, 0, 1);
    assert_eq!(clamped.render(), "((x >= 0) && (x <= 1))");
    let far = Sym::getConstraintsAround(&u, i64::MAX, 1);
    assert_eq!(far.render(), "((x >= 4294967295) && (x <= 4294967295))");
    let wide = Sym::getConstraintsAround(&u, i64::MAX, i64::MAX);
    assert_eq!(wide.render(), "((x >= 0) && (x <= 4294967295))");
}

#[test]
fn tree_dump_indents_by_four() {
    let x = Sym::new("x", "int").unwrap();
    let c = Conc::new(42, CDataTypes::Int);
    let e = BinarySymExpr::new(
        &Operand::Symbol(x.clone()),
        &Operand::Concrete(c.clone()),
        Opcode::Add,
    );
    assert_eq!(e.dump(None), "    x\n+\n    42\n");
    assert_eq!(e.dump(Some(2)), "      x\n  +\n      42\n");
    let nested = BinarySymExpr::new(
        &Operand::Expr(e.clone()),
        &Operand::Symbol(x.clone()),
        Opcode::Mul,
    );
    assert_eq!(nested.dump(None), "        x\n    +\n        42\n*\n    x\n");
}

#[test]
fn find_first_pair_of_type() {
    let (set, _types) = set_of_syms();
    let (s1, s2) = search_pair_of_types(&set, CDataTypes::Int, CDataTypes::Int).unwrap();
    assert_eq!(s1.name, "s1");
    assert_eq!(s2.name, "s2");
    let (a, b) =
        search_pair_of_types(&set, CDataTypes::Short, CDataTypes::UnsignedInt).unwrap();
    assert_eq!(a.name, "sh1");
    assert_eq!(b.name, "u1");
}

#[test]
fn find_pair_with_single_candidate_is_not_found() {
    // A catalog holding exactly one int-typed symbol has no pair: the
    // lookup must report that, not panic.
    let only = Sym::new("only", "int").unwrap();
    let set = vec![only];
    assert!(search_pair_of_types(&set, CDataTypes::Int, CDataTypes::Int).is_none());

    // Two symbols that agree in both name and type never pair either.
    let twin1 = Sym::new("twin", "int").unwrap();
    let twin2 = Sym::new("twin", "int").unwrap();
    let twins = vec![twin1, twin2];
    assert!(search_pair_of_types(&twins, CDataTypes::Int, CDataTypes::Int).is_none());
}

#[test]
fn header_and_footer_text() {
    let a = Sym::new("a", "unsigned int").unwrap();
    let b = Sym::new("b", "int").unwrap();
    assert_eq!(
        header_text("foo", &[a.clone(), b.clone()]),
        "\nvoid clang_analyzer_eval(int);\n\nint foo(\n\tunsigned int a, int b) {"
    );
    assert_eq!(
        header_text("foo", &[a.clone()]),
        "\nvoid clang_analyzer_eval(int);\n\nint foo(unsigned int a) {"
    );
    assert_eq!(header_text("foo", &[]), "\nvoid clang_analyzer_eval(int);\n\nint foo() {");
    assert_eq!(footer_text(), "\n  return 0;\n}");
}

#[test]
fn fuzz_text_emits_one_block_per_type() {
    let body = fuzz_text(Opcode::NE);
    assert!(body.starts_with("\nvoid clang_analyzer_eval(int);\n\nint foo(\n\tsigned char sch1, "));
    assert!(body.ends_with("\n  return 0;\n}"));
    assert!(body.contains(
        "\n  if ((u1 <= 2147483644) && (u2 >= 2147483650)) {\n      \
         clang_analyzer_eval(u1 != u2);\n  }\n  "
    ));
    assert!(body.contains("clang_analyzer_eval(sch1 != sch2);"));
    assert!(body.contains("clang_analyzer_eval(s1 != s2);"));
    assert_eq!(body.matches("clang_analyzer_eval").count(), 7);
    assert_eq!(body.matches("\n  if ").count(), 6);
}

#[test]
fn remained_rules_demonstration_text() {
    let body = remained_rules_text();
    assert!(body.starts_with("\nvoid clang_analyzer_eval(int);\n\nint bar(\n\tunsigned int a, "));
    assert!(body.contains("\n  if ((a <= 30) && (b <= 50)) {\n      \
        clang_analyzer_eval((a % b) < 50);\n  }\n  "));
}

#[test]
fn chained_expressions_share_their_nodes() {
    let x = Sym::new("x", "int").unwrap();
    let c = Conc::new(1, CDataTypes::Int);
    let e1 = BinarySymExpr::new(
        &Operand::Symbol(x.clone()),
        &Operand::Concrete(c.clone()),
        Opcode::LE,
    );
    let e2 = BinarySymExpr::new(
        &Operand::Concrete(c.clone()),
        &Operand::Symbol(x.clone()),
        Opcode::LE,
    );
    let chain = ChainedBSE::new(&vec![e1.clone(), e2.clone()], Opcode::LAnd);
    assert_eq!(chain.render(), "( && )");
    assert_eq!(chain.declare(), "");
    assert_eq!(chain.dump(Some(2)), "  &&\n");
    assert_eq!(
        chain.join_text(),
        "Joining is happening attention\n(x <= 1) (1 <= x) \nJoining is done\n"
    );
}

#[test]
fn test_case_dump_and_declare() {
    let s = Sym::new("x", "int").unwrap();
    let c = Sym::getConstraintsAround(&s, 0, 1);
    let t = symi::Test::Test::new(&c, &c);
    assert_eq!(t.dump(None), "This is a test from dump method");
    assert_eq!(t.declare(), "");
}
