//! Test: a test case pairing one constraint expression (the guard) with
//! one assertion expression, rendered as a guarded assertion block around
//! the downstream analyzer's evaluation hook.

use std::sync::Arc;

use vstd::prelude::*;
use vstd::string::StringExecFns;

use crate::Draw::Draw;
use crate::Expr::{render_bse, BinarySymExpr};

verus! {

/// A guarded assertion block: if the conditional holds, the assertion is
/// handed to the analyzer's evaluation hook.
pub struct Test {
    pub Conditional: Arc<BinarySymExpr>,
    pub Assertion: Arc<BinarySymExpr>,
}

/// The emitted block for a rendered conditional `c` and assertion `a`.
pub open spec fn test_block(c: Seq<char>, a: Seq<char>) -> Seq<char> {
    "\n  if "@ + c + " {\n      clang_analyzer_eval"@ + a + ";\n  }\n  "@
}

impl Test {
    /// A test case over two existing expression trees, shared rather than
    /// copied; the two sides need not share any leaf type.
    pub fn new(Conditional: &Arc<BinarySymExpr>, Assertion: &Arc<BinarySymExpr>) -> (r: Arc<Test>)
        ensures
            r.Conditional == *Conditional,
            r.Assertion == *Assertion,
    {
        Arc::new(Test { Conditional: Conditional.clone(), Assertion: Assertion.clone() })
    }
}

impl Draw for Test {
    open spec fn spec_render(&self) -> Seq<char> {
        test_block(render_bse(*self.Conditional), render_bse(*self.Assertion))
    }

    open spec fn spec_declare(&self) -> Seq<char> {
        Seq::empty()
    }

    open spec fn spec_dump(&self, indent: nat) -> Seq<char> {
        "This is a test from dump method"@
    }

    open spec fn dump_depth(&self) -> nat {
        0
    }

    fn render(&self) -> (r: String) {
        let mut out = String::from_str("\n  if ");
        out.append(self.Conditional.render().as_str());
        out.append(" {\n      clang_analyzer_eval");
        out.append(self.Assertion.render().as_str());
        out.append(";\n  }\n  ");
        proof {
            assert(out@ =~= self.spec_render());
        }
        out
    }

    fn declare(&self) -> (r: String) {
        String::new()
    }

    fn dump(&self, tabl: Option<usize>) -> (r: String) {
        String::from_str("This is a test from dump method")
    }
}

} // verus!
