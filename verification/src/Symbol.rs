//! Symbol: the two leaf value kinds of expression trees. `Sym` is a named
//! variable with an associated C type; `Conc` is a typed literal. Both are
//! immutable after construction and shared by reference across trees.

use std::sync::Arc;

use vstd::prelude::*;
use vstd::string::StringExecFns;

use crate::BinOp::Opcode;
use crate::DataType::{is_supported, spec_max, spec_min, spec_type_of_text, spec_type_text,
    CDataTypes};
use crate::Draw::{spec_tabl, Draw};
use crate::Expr::{is_interval_around, BinarySymExpr, Operand};
use crate::text::{i64_to_dec, int_text, sp, spaces};

verus! {

/// A symbol referencing one declaration: a name and a C type.
pub struct Sym {
    pub ty: CDataTypes,
    pub name: String,
}

/// Mathematical content of a symbol.
pub struct SymV {
    pub name: Seq<char>,
    pub ty: CDataTypes,
}

impl View for Sym {
    type V = SymV;

    open spec fn view(&self) -> SymV {
        SymV { name: self.name@, ty: self.ty }
    }
}

impl DeepView for Sym {
    type V = SymV;

    open spec fn deep_view(&self) -> SymV {
        self@
    }
}

/// A typed concrete literal.
pub struct Conc {
    pub ty: CDataTypes,
    pub val: i64,
}

/// Declaration text of a symbol's view: `<type-text> <name>`.
pub open spec fn sym_declare_v(v: SymV) -> Seq<char> {
    spec_type_text(v.ty) + " "@ + v.name
}

/// Declaration text of a symbol: `<type-text> <name>`.
pub open spec fn sym_declare(s: Sym) -> Seq<char> {
    sym_declare_v(s@)
}

/// Clamp `x` into the inclusive interval `[lo, hi]`.
pub open spec fn spec_clamp(x: int, lo: int, hi: int) -> int {
    if x < lo {
        lo
    } else if x > hi {
        hi
    } else {
        x
    }
}

impl Sym {
    /// A new shared symbol of the type the text `dtype` names; `None` when
    /// the text names no type, never a silent default.
    pub fn new(name: &str, dtype: &str) -> (r: Option<Arc<Sym>>)
        ensures
            match r {
                Some(s) => spec_type_of_text(dtype@) == Some(s@.ty) && s@.name == name@,
                None => spec_type_of_text(dtype@) is None,
            },
    {
        match CDataTypes::getType(dtype) {
            Some(t) => Some(Arc::new(Sym { ty: t, name: String::from_str(name) })),
            None => None,
        }
    }

    /// Whether this symbol has the given type.
    pub fn isa(&self, ty: CDataTypes) -> (r: bool)
        ensures
            r == (self.ty == ty),
    {
        self.ty == ty
    }

    /// The symbol's name.
    pub fn getName(&self) -> (r: &String)
        ensures
            r@ == self.name@,
    {
        &self.name
    }

    /// The symbol's type.
    pub fn getType(&self) -> (r: CDataTypes)
        ensures
            r == self.ty,
    {
        self.ty
    }

    /// The inclusive range of the symbol's type.
    pub fn getTypeRange(&self) -> (r: (i64, i64))
        requires
            is_supported(self.ty),
        ensures
            r.0 as int == spec_min(self.ty),
            r.1 as int == spec_max(self.ty),
            r.0 <= r.1,
    {
        (&self.ty).getRange()
    }

    /// The interval constraint `(S >= pivot - away) && (S <= pivot + away)`
    /// for a shared symbol `S`. The bounds are clamped into the type's own
    /// range, so construction never fails, whatever pivot and width are
    /// asked for; inside the range the bounds are exactly `pivot - away`
    /// and `pivot + away`.
    pub fn getConstraintsAround(sym: &Arc<Sym>, pivot: i64, away: i64) -> (r: Arc<BinarySymExpr>)
        requires
            is_supported(sym.ty),
        ensures
            is_interval_around(
                *r,
                **sym,
                spec_clamp(pivot - away, spec_min(sym.ty), spec_max(sym.ty)),
                spec_clamp(pivot + away, spec_min(sym.ty), spec_max(sym.ty)),
                sym.ty,
            ),
    {
        let (t_min, t_max) = sym.getTypeRange();
        let lo_wide: i128 = pivot as i128 - away as i128;
        let hi_wide: i128 = pivot as i128 + away as i128;
        let lo: i64 = if lo_wide < t_min as i128 {
            t_min
        } else if lo_wide > t_max as i128 {
            t_max
        } else {
            lo_wide as i64
        };
        let hi: i64 = if hi_wide < t_min as i128 {
            t_min
        } else if hi_wide > t_max as i128 {
            t_max
        } else {
            hi_wide as i64
        };
        let conc_before = Conc::new(lo, sym.getType());
        let conc_after = Conc::new(hi, sym.getType());
        let lhs = BinarySymExpr::new(
            &Operand::Symbol(sym.clone()),
            &Operand::Concrete(conc_before),
            Opcode::GE,
        );
        let rhs = BinarySymExpr::new(
            &Operand::Symbol(sym.clone()),
            &Operand::Concrete(conc_after),
            Opcode::LE,
        );
        BinarySymExpr::new(&Operand::Expr(lhs), &Operand::Expr(rhs), Opcode::LAnd)
    }
}

impl PartialEq for Sym {
    /// Symbols are equal exactly when both name and type match.
    fn eq(&self, other: &Self) -> (r: bool) {
        self.name == other.name && self.ty == other.ty
    }
}

impl vstd::std_specs::cmp::PartialEqSpecImpl for Sym {
    open spec fn obeys_eq_spec() -> bool {
        true
    }

    open spec fn eq_spec(&self, other: &Sym) -> bool {
        self.name@ == other.name@ && self.ty == other.ty
    }
}

impl Draw for Sym {
    open spec fn spec_render(&self) -> Seq<char> {
        self.name@
    }

    open spec fn spec_declare(&self) -> Seq<char> {
        sym_declare(*self)
    }

    open spec fn spec_dump(&self, indent: nat) -> Seq<char> {
        sp(indent) + self.name@ + "\n"@
    }

    open spec fn dump_depth(&self) -> nat {
        0
    }

    fn render(&self) -> (r: String) {
        self.name.clone()
    }

    fn declare(&self) -> (r: String) {
        let mut out = (&self.ty).render();
        out.append(" ");
        out.append(self.name.as_str());
        proof {
            assert(out@ =~= sym_declare(*self));
        }
        out
    }

    fn dump(&self, tabl: Option<usize>) -> (r: String) {
        let k: usize = match tabl {
            Some(k) => k,
            None => 0,
        };
        let mut out = spaces(k);
        out.append(self.name.as_str());
        out.append("\n");
        proof {
            assert(out@ =~= self.spec_dump(spec_tabl(tabl)));
        }
        out
    }
}

impl Conc {
    /// A new shared literal of the given value and type.
    pub fn new(val: i64, ty: CDataTypes) -> (r: Arc<Conc>)
        ensures
            r.val == val,
            r.ty == ty,
    {
        Arc::new(Conc { ty, val })
    }
}

impl Draw for Conc {
    open spec fn spec_render(&self) -> Seq<char> {
        int_text(self.val as int)
    }

    open spec fn spec_declare(&self) -> Seq<char> {
        int_text(self.val as int)
    }

    open spec fn spec_dump(&self, indent: nat) -> Seq<char> {
        sp(indent) + int_text(self.val as int) + "\n"@
    }

    open spec fn dump_depth(&self) -> nat {
        0
    }

    fn render(&self) -> (r: String) {
        i64_to_dec(self.val)
    }

    fn declare(&self) -> (r: String) {
        i64_to_dec(self.val)
    }

    fn dump(&self, tabl: Option<usize>) -> (r: String) {
        let k: usize = match tabl {
            Some(k) => k,
            None => 0,
        };
        let mut out = spaces(k);
        let v = i64_to_dec(self.val);
        out.append(v.as_str());
        out.append("\n");
        proof {
            assert(out@ =~= self.spec_dump(spec_tabl(tabl)));
        }
        out
    }
}

} // verus!
