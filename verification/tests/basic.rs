//! The library's original unit tests: symbol construction, interval
//! constraints, test-case assembly, and tree building.
#![allow(non_snake_case)]

use symi::BinOp::Opcode;
use symi::DataType::CDataTypes;
use symi::Draw::Draw;
use symi::Expr::{BinarySymExpr, Operand};
use symi::Symbol::{Conc, Sym};
use symi::Test::Test;

#[test]
fn it_works() {
    let result = 2 + 2;
    assert_eq!(result, 4);
}

#[test]
fn test_Sym() {
    let s = Sym::new("x", "unsigned int").unwrap();
    assert!(s.name == "x" && s.ty == CDataTypes::UnsignedInt);
}

#[test]
fn test_getConstraintsAround() {
    let s = Sym::new("x", "unsigned int").unwrap();
    let _b = Sym::getConstraintsAround(&s, 0, 1);
    println!("{}", _b.render());
    println!("{}", s.render());
}

#[test]
fn test_TestExpr() {
    let s = Sym::new("x", "int").unwrap();
    let c = Sym::getConstraintsAround(&s, 0, 1);
    let a = Sym::getConstraintsAround(&s, 1, 2);

    let _t = Test::new(&c, &a);
    println!("Test = {}", _t.render());
    println!("{}", s.render());
    println!("{}", c.render());
}

#[test]
fn test_symi() {
    let sym = Sym::new("x", "unsigned int").unwrap();
    let conc = Conc::new(42, CDataTypes::Int);
    let bse = BinarySymExpr::new(
        &Operand::Symbol(sym.clone()),
        &Operand::Concrete(conc.clone()),
        Opcode::LAnd,
    );
    let bse2 = BinarySymExpr::new(
        &Operand::Expr(bse.clone()),
        &Operand::Symbol(sym.clone()),
        Opcode::Mul,
    );
    let _test = Test::new(&bse, &bse2);
}
