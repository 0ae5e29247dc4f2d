//! Expr: generic binary expression trees over symbols, literals and nested
//! expressions. Nodes are built strictly bottom-up and attach their
//! children by shared reference, never by deep copy.

use std::sync::Arc;

use vstd::prelude::*;
use vstd::string::StringExecFns;

use crate::BinOp::{spec_op_text, Opcode};
use crate::Draw::{spec_tabl, Draw};
use crate::DataType::CDataTypes;
use crate::Symbol::{Conc, Sym};
use crate::text::{atom_text, int_text, sp, spaces};

verus! {

/// One side of a binary expression: a shared symbol, a shared literal, or
/// a shared nested expression.
pub enum Operand {
    Symbol(Arc<Sym>),
    Concrete(Arc<Conc>),
    Expr(Arc<BinarySymExpr>),
}

/// A binary expression node: two operands combined by one opcode.
pub struct BinarySymExpr {
    pub LHS: Operand,
    pub RHS: Operand,
    pub Op: Opcode,
}

/// Value rendering of an operand: a symbol renders as its name, a literal
/// as its decimal text, a nested expression as its own value rendering.
pub open spec fn render_operand(o: Operand) -> Seq<char>
    decreases o,
{
    match o {
        Operand::Symbol(s) => s.name@,
        Operand::Concrete(c) => int_text(c.val as int),
        Operand::Expr(e) => render_bse(*e),
    }
}

/// Value rendering of a binary expression: `(<lhs> <op> <rhs>)`, operand
/// order exactly mirroring construction order.
pub open spec fn render_bse(e: BinarySymExpr) -> Seq<char>
    decreases e,
{
    "("@ + render_operand(e.LHS) + " "@ + spec_op_text(e.Op) + " "@ + render_operand(e.RHS) + ")"@
}

/// Declaration rendering of an operand: a C declaration for a symbol, the
/// literal's text for a literal, and the empty string for a composite
/// expression, which has no single type/name pair to declare.
pub open spec fn declare_operand(o: Operand) -> Seq<char> {
    match o {
        Operand::Symbol(s) => crate::Symbol::sym_declare(*s),
        Operand::Concrete(c) => int_text(c.val as int),
        Operand::Expr(e) => Seq::empty(),
    }
}

/// Tree-dump rendering of an operand at indent `k`.
pub open spec fn dump_operand(o: Operand, k: nat) -> Seq<char>
    decreases o,
{
    match o {
        Operand::Symbol(s) => sp(k) + s.name@ + "\n"@,
        Operand::Concrete(c) => sp(k) + int_text(c.val as int) + "\n"@,
        Operand::Expr(e) => dump_bse(*e, k),
    }
}

/// Tree-dump rendering of a binary expression at indent `k`: the left
/// subtree at `k + 4`, the operator at `k`, the right subtree at `k + 4`.
pub open spec fn dump_bse(e: BinarySymExpr, k: nat) -> Seq<char>
    decreases e,
{
    dump_operand(e.LHS, k + 4) + sp(k) + spec_op_text(e.Op) + "\n"@ + dump_operand(e.RHS, k + 4)
}

/// Nesting depth of an operand's dump.
pub open spec fn depth_operand(o: Operand) -> nat
    decreases o,
{
    match o {
        Operand::Symbol(s) => 0,
        Operand::Concrete(c) => 0,
        Operand::Expr(e) => depth_bse(*e),
    }
}

/// Nesting depth of a binary expression's dump.
pub open spec fn depth_bse(e: BinarySymExpr) -> nat
    decreases e,
{
    1 + if depth_operand(e.LHS) >= depth_operand(e.RHS) {
        depth_operand(e.LHS)
    } else {
        depth_operand(e.RHS)
    }
}

/// `e` is the comparison `<s> <op> <literal v of type t>`.
pub open spec fn is_cmp_sym_conc(e: BinarySymExpr, s: Sym, op: Opcode, v: int, t: CDataTypes) -> bool {
    &&& e.Op == op
    &&& e.LHS matches Operand::Symbol(a) && *a == s
    &&& e.RHS matches Operand::Concrete(c) && c.val as int == v && c.ty == t
}

/// `e` is the conjunctive interval `(s >= lo) && (s <= hi)` over literals
/// of type `t`.
pub open spec fn is_interval_around(
    e: BinarySymExpr,
    s: Sym,
    lo: int,
    hi: int,
    t: CDataTypes,
) -> bool {
    &&& e.Op == Opcode::LAnd
    &&& e.LHS matches Operand::Expr(l) && is_cmp_sym_conc(*l, s, Opcode::GE, lo, t)
    &&& e.RHS matches Operand::Expr(r) && is_cmp_sym_conc(*r, s, Opcode::LE, hi, t)
}

impl Operand {
    /// Another handle on the same shared operand; the child itself is
    /// never copied.
    pub fn dup(&self) -> (r: Operand)
        ensures
            r == *self,
    {
        match self {
            Operand::Symbol(s) => Operand::Symbol(s.clone()),
            Operand::Concrete(c) => Operand::Concrete(c.clone()),
            Operand::Expr(e) => Operand::Expr(e.clone()),
        }
    }

    fn render_rec(&self) -> (r: String)
        ensures
            r@ == render_operand(*self),
        decreases *self,
    {
        match self {
            Operand::Symbol(s) => s.getName().clone(),
            Operand::Concrete(c) => crate::text::i64_to_dec(c.val),
            Operand::Expr(e) => e.render_rec(),
        }
    }

    fn dump_rec(&self, indent: usize) -> (r: String)
        requires
            indent + 4 * depth_operand(*self) <= usize::MAX,
        ensures
            r@ == dump_operand(*self, indent as nat),
        decreases *self,
    {
        match self {
            Operand::Symbol(s) => {
                let mut out = spaces(indent);
                out.append(s.getName().as_str());
                out.append("\n");
                proof {
                    assert(out@ =~= dump_operand(*self, indent as nat));
                }
                out
            },
            Operand::Concrete(c) => {
                let mut out = spaces(indent);
                let v = crate::text::i64_to_dec(c.val);
                out.append(v.as_str());
                out.append("\n");
                proof {
                    assert(out@ =~= dump_operand(*self, indent as nat));
                }
                out
            },
            Operand::Expr(e) => e.dump_rec(indent),
        }
    }
}

impl BinarySymExpr {
    /// Build a new node over two existing operands; the node shares its
    /// children with every other tree that holds them.
    pub fn new(LHS: &Operand, RHS: &Operand, Op: Opcode) -> (r: Arc<BinarySymExpr>)
        ensures
            (*r).LHS == *LHS,
            (*r).RHS == *RHS,
            (*r).Op == Op,
    {
        Arc::new(BinarySymExpr { LHS: LHS.dup(), RHS: RHS.dup(), Op })
    }

    fn render_rec(&self) -> (r: String)
        ensures
            r@ == render_bse(*self),
        decreases *self,
    {
        let mut out = String::from_str("(");
        out.append(self.LHS.render_rec().as_str());
        out.append(" ");
        out.append(self.Op.render().as_str());
        out.append(" ");
        out.append(self.RHS.render_rec().as_str());
        out.append(")");
        proof {
            assert(out@ =~= render_bse(*self));
        }
        out
    }

    fn dump_rec(&self, indent: usize) -> (r: String)
        requires
            indent + 4 * depth_bse(*self) <= usize::MAX,
        ensures
            r@ == dump_bse(*self, indent as nat),
        decreases *self,
    {
        let mut out = self.LHS.dump_rec(indent + 4);
        let pad = spaces(indent);
        out.append(pad.as_str());
        out.append(self.Op.render().as_str());
        out.append("\n");
        out.append(self.RHS.dump_rec(indent + 4).as_str());
        proof {
            assert(out@ =~= dump_bse(*self, indent as nat));
        }
        out
    }
}

impl Draw for Operand {
    open spec fn spec_render(&self) -> Seq<char> {
        render_operand(*self)
    }

    open spec fn spec_declare(&self) -> Seq<char> {
        declare_operand(*self)
    }

    open spec fn spec_dump(&self, indent: nat) -> Seq<char> {
        dump_operand(*self, indent)
    }

    open spec fn dump_depth(&self) -> nat {
        depth_operand(*self)
    }

    fn render(&self) -> (r: String) {
        self.render_rec()
    }

    fn declare(&self) -> (r: String) {
        match self {
            Operand::Symbol(s) => s.declare(),
            Operand::Concrete(c) => crate::text::i64_to_dec(c.val),
            Operand::Expr(e) => String::new(),
        }
    }

    fn dump(&self, tabl: Option<usize>) -> (r: String) {
        let k: usize = match tabl {
            Some(k) => k,
            None => 0,
        };
        self.dump_rec(k)
    }
}

impl Draw for BinarySymExpr {
    open spec fn spec_render(&self) -> Seq<char> {
        render_bse(*self)
    }

    /// A composite expression deliberately declares nothing: it has no
    /// single type/name pair.
    open spec fn spec_declare(&self) -> Seq<char> {
        Seq::empty()
    }

    open spec fn spec_dump(&self, indent: nat) -> Seq<char> {
        dump_bse(*self, indent)
    }

    open spec fn dump_depth(&self) -> nat {
        depth_bse(*self)
    }

    fn render(&self) -> (r: String) {
        self.render_rec()
    }

    fn declare(&self) -> (r: String) {
        String::new()
    }

    fn dump(&self, tabl: Option<usize>) -> (r: String) {
        let k: usize = match tabl {
            Some(k) => k,
            None => 0,
        };
        self.dump_rec(k)
    }
}

/// No parenthesis stands in `s`.
pub open spec fn paren_free(s: Seq<char>) -> bool {
    forall|i: int| 0 <= i < s.len() ==> s[i] != '(' && s[i] != ')'
}

/// Parenthesis balance of the first `i` characters of `s`: opening
/// parentheses counted up, closing ones counted down.
pub open spec fn paren_bal(s: Seq<char>, i: int) -> int
    decreases i,
{
    if i <= 0 {
        0
    } else {
        paren_bal(s, i - 1) + (if s[i - 1] == '(' {
            1int
        } else if s[i - 1] == ')' {
            -1int
        } else {
            0int
        })
    }
}

/// Texts that agree on their first `i` characters have the same balance
/// there.
proof fn lemma_bal_agree(s1: Seq<char>, s2: Seq<char>, i: int)
    requires
        0 <= i,
        forall|k: int| 0 <= k < i ==> s1[k] == s2[k],
    ensures
        paren_bal(s1, i) == paren_bal(s2, i),
    decreases i,
{
    if i > 0 {
        lemma_bal_agree(s1, s2, i - 1);
    }
}

/// Balance across a concatenation: past the end of `x` the balance is
/// `x`'s total plus `y`'s own balance.
proof fn lemma_bal_split(x: Seq<char>, y: Seq<char>, i: int)
    requires
        0 <= i <= x.len() + y.len(),
    ensures
        paren_bal(x + y, i) == if i <= x.len() {
            paren_bal(x, i)
        } else {
            paren_bal(x, x.len() as int) + paren_bal(y, i - x.len())
        },
    decreases i,
{
    if i <= x.len() {
        lemma_bal_agree(x + y, x, i);
    } else {
        lemma_bal_split(x, y, i - 1);
        assert((x + y)[i - 1] == y[i - 1 - x.len()]);
    }
}

/// Parenthesis-free text has zero balance everywhere.
proof fn lemma_bal_flat(s: Seq<char>, i: int)
    requires
        0 <= i <= s.len(),
        paren_free(s),
    ensures
        paren_bal(s, i) == 0,
    decreases i,
{
    if i > 0 {
        lemma_bal_flat(s, i - 1);
    }
}

/// A balanced segment: total balance zero, and never negative on the way.
pub open spec fn segment(s: Seq<char>) -> bool {
    &&& paren_bal(s, s.len() as int) == 0
    &&& forall|i: int| 0 <= i <= s.len() ==> paren_bal(s, i) >= 0
}

/// A wrapped text: opens a parenthesis first, closes it only at the very
/// end, and stays strictly inside it in between.
pub open spec fn wrapped(u: Seq<char>) -> bool {
    &&& u.len() >= 2
    &&& u[0] == '('
    &&& u[u.len() - 1] == ')'
    &&& paren_bal(u, u.len() as int) == 0
    &&& forall|i: int| 0 < i < u.len() ==> paren_bal(u, i) >= 1
}

/// Parenthesis-free text is a balanced segment.
proof fn lemma_segment_flat(s: Seq<char>)
    requires
        paren_free(s),
    ensures
        segment(s),
{
    assert forall|i: int| 0 <= i <= s.len() implies paren_bal(s, i) >= 0 by {
        lemma_bal_flat(s, i);
    }
    lemma_bal_flat(s, s.len() as int);
}

/// A wrapped text is a balanced segment.
proof fn lemma_segment_wrapped(u: Seq<char>)
    requires
        wrapped(u),
    ensures
        segment(u),
{
}

/// Appending a balanced segment to a text whose balance stays at least
/// one and ends at one keeps both properties.
proof fn lemma_wrap_step(u: Seq<char>, y: Seq<char>)
    requires
        u.len() >= 1,
        paren_bal(u, u.len() as int) == 1,
        forall|i: int| 0 < i <= u.len() ==> paren_bal(u, i) >= 1,
        segment(y),
    ensures
        paren_bal(u + y, (u + y).len() as int) == 1,
        forall|i: int| 0 < i <= (u + y).len() ==> paren_bal(u + y, i) >= 1,
{
    assert forall|i: int| 0 < i <= (u + y).len() implies paren_bal(u + y, i) >= 1 by {
        lemma_bal_split(u, y, i);
    }
    lemma_bal_split(u, y, (u + y).len() as int);
}

/// A tree is well formed for the rendering laws when every symbol name in
/// it holds atom characters only: no spaces, no parentheses. Symbols made
/// from ordinary C identifiers always satisfy this.
pub open spec fn wf_operand(o: Operand) -> bool
    decreases o,
{
    match o {
        Operand::Symbol(s) => atom_text(s.name@),
        Operand::Concrete(c) => true,
        Operand::Expr(e) => wf_bse(*e),
    }
}

/// Both sides of a well-formed node are well formed.
pub open spec fn wf_bse(e: BinarySymExpr) -> bool
    decreases e,
{
    wf_operand(e.LHS) && wf_operand(e.RHS)
}

/// A well-formed operand renders either as an atom (a name or a literal)
/// or as a wrapped, parenthesized expression.
proof fn lemma_render_shape_operand(o: Operand)
    requires
        wf_operand(o),
    ensures
        atom_text(render_operand(o)) || wrapped(render_operand(o)),
    decreases o,
{
    match o {
        Operand::Symbol(s) => {},
        Operand::Concrete(c) => {
            crate::text::lemma_int_text_atom(c.val as int);
        },
        Operand::Expr(e) => {
            lemma_render_shape_bse(&*e);
        },
    }
}

/// A well-formed node renders as a wrapped text.
proof fn lemma_render_shape_bse(e: &BinarySymExpr)
    requires
        wf_bse(*e),
    ensures
        wrapped(render_bse(*e)),
    decreases *e,
{
    lemma_render_shape_operand(e.LHS);
    lemma_render_shape_operand(e.RHS);
    crate::BinOp::lemma_op_text_atom(e.Op);
    let a = render_operand(e.LHS);
    let b = render_operand(e.RHS);
    let t = spec_op_text(e.Op);
    reveal_strlit("(");
    reveal_strlit(" ");
    reveal_strlit(")");
    assert("("@.len() == 1 && "("@[0] == '(');
    assert(" "@.len() == 1 && " "@[0] == ' ');
    assert(")"@.len() == 1 && ")"@[0] == ')');
    assert(paren_free(" "@));
    assert(paren_free(a) || wrapped(a));
    assert(paren_free(b) || wrapped(b));
    assert(paren_free(t));
    if paren_free(a) {
        lemma_segment_flat(a);
    } else {
        lemma_segment_wrapped(a);
    }
    if paren_free(b) {
        lemma_segment_flat(b);
    } else {
        lemma_segment_wrapped(b);
    }
    lemma_segment_flat(" "@);
    lemma_segment_flat(t);
    let u1 = "("@;
    assert(paren_bal(u1, 0) == 0);
    assert(paren_bal(u1, 1) == 1);
    assert(forall|i: int| 0 < i <= u1.len() ==> paren_bal(u1, i) >= 1);
    let u2 = u1 + a;
    lemma_wrap_step(u1, a);
    let u3 = u2 + " "@;
    lemma_wrap_step(u2, " "@);
    let u4 = u3 + t;
    lemma_wrap_step(u3, t);
    let u5 = u4 + " "@;
    lemma_wrap_step(u4, " "@);
    let u6 = u5 + b;
    lemma_wrap_step(u5, b);
    let full = u6 + ")"@;
    assert(full == render_bse(*e));
    assert(paren_bal(")"@, 0) == 0);
    assert(paren_bal(")"@, 1) == -1);
    lemma_bal_split(u6, ")"@, full.len() as int);
    assert(paren_bal(full, full.len() as int) == 0);
    assert forall|i: int| 0 < i < full.len() implies paren_bal(full, i) >= 1 by {
        lemma_bal_split(u6, ")"@, i);
    }
    assert(full[0] == '(');
    assert(full[full.len() - 1] == ')');
}

/// Two wrapped texts that both start the same string are the same text:
/// the balance returns to zero exactly once.
proof fn lemma_wrapped_prefix(u: Seq<char>, v: Seq<char>, s: Seq<char>)
    requires
        wrapped(u),
        wrapped(v),
        u.len() <= s.len(),
        v.len() <= s.len(),
        forall|k: int| 0 <= k < u.len() ==> s[k] == u[k],
        forall|k: int| 0 <= k < v.len() ==> s[k] == v[k],
    ensures
        u == v,
{
    if u.len() < v.len() {
        lemma_bal_agree(u, v, u.len() as int);
        assert(paren_bal(v, u.len() as int) == 0);
        assert(false);
    }
    if v.len() < u.len() {
        lemma_bal_agree(v, u, v.len() as int);
        assert(paren_bal(u, v.len() as int) == 0);
        assert(false);
    }
    assert forall|k: int| 0 <= k < u.len() implies u[k] == v[k] by {
        assert(u[k] == s[k]);
    }
    assert(u =~= v);
}

/// Value rendering preserves left-to-right operand order: two nodes built
/// from the same two operands in opposite order render equal only when
/// the operands themselves render identically. Holds for every pair of
/// well-formed trees, whatever the operator.
pub proof fn lemma_render_order(A: Operand, B: Operand, op: Opcode)
    requires
        wf_operand(A),
        wf_operand(B),
    ensures
        render_bse(BinarySymExpr { LHS: A, RHS: B, Op: op }) == render_bse(
            BinarySymExpr { LHS: B, RHS: A, Op: op },
        ) ==> render_operand(A) == render_operand(B),
{
    let a = render_operand(A);
    let b = render_operand(B);
    let s1 = render_bse(BinarySymExpr { LHS: A, RHS: B, Op: op });
    let s2 = render_bse(BinarySymExpr { LHS: B, RHS: A, Op: op });
    if s1 == s2 {
        lemma_render_shape_operand(A);
        lemma_render_shape_operand(B);
        reveal_strlit("(");
        reveal_strlit(" ");
        reveal_strlit(")");
        assert("("@.len() == 1 && "("@[0] == '(');
        assert(" "@.len() == 1 && " "@[0] == ' ');
        assert(")"@.len() == 1 && ")"@[0] == ')');
        if atom_text(a) && atom_text(b) {
            if a.len() < b.len() {
                assert(s1[1 + a.len() as int] == ' ');
                assert(s2[1 + a.len() as int] == b[a.len() as int]);
                assert(false);
            }
            if b.len() < a.len() {
                assert(s2[1 + b.len() as int] == ' ');
                assert(s1[1 + b.len() as int] == a[b.len() as int]);
                assert(false);
            }
            assert forall|i: int| 0 <= i < a.len() implies a[i] == b[i] by {
                assert(s1[1 + i] == a[i]);
                assert(s2[1 + i] == b[i]);
            }
            assert(a =~= b);
        } else if atom_text(a) && wrapped(b) {
            if a.len() == 0 {
                assert(s1[1] == ' ');
            } else {
                assert(s1[1] == a[0]);
            }
            assert(s2[1] == b[0]);
            assert(false);
        } else if wrapped(a) && atom_text(b) {
            if b.len() == 0 {
                assert(s2[1] == ' ');
            } else {
                assert(s2[1] == b[0]);
            }
            assert(s1[1] == a[0]);
            assert(false);
        } else {
            let tail = s1.subrange(1, s1.len() as int);
            assert forall|k: int| 0 <= k < a.len() implies tail[k] == a[k] by {
                assert(s1[1 + k] == a[k]);
            }
            assert forall|k: int| 0 <= k < b.len() implies tail[k] == b[k] by {
                assert(s2[1 + k] == b[k]);
            }
            lemma_wrapped_prefix(a, b, tail);
        }
    }
}

/// Declaration rendering is total and fixed in shape: a composite
/// expression always declares the empty string, and a symbol always
/// declares as `<type-text> <name>`.
pub proof fn lemma_declare_rendering()
    ensures
        forall|e: BinarySymExpr| #[trigger] e.spec_declare() == Seq::<char>::empty(),
        forall|o: Operand| o is Expr ==> #[trigger] declare_operand(o) == Seq::<char>::empty(),
        forall|s: Sym| #[trigger] s.spec_declare() == crate::DataType::spec_type_text(s.ty) + " "@
            + s.name@,
{
}

/// A collection of expression nodes meant to be joined by one logical
/// operator.
pub struct ChainedBSE {
    pub Op: Opcode,
    pub BSEs: Vec<Arc<BinarySymExpr>>,
}

/// The running text of a chain's members, each followed by one space.
pub open spec fn join_upto(s: Seq<Arc<BinarySymExpr>>, i: int) -> Seq<char>
    decreases i,
{
    if i <= 0 {
        Seq::empty()
    } else {
        join_upto(s, i - 1) + render_bse(*s[i - 1]) + " "@
    }
}

/// Diagnostic text of joining a chain: a banner, every member's value
/// rendering separated by spaces, and a closing banner.
pub open spec fn spec_join_text(c: ChainedBSE) -> Seq<char> {
    "Joining is happening attention\n"@ + join_upto(c.BSEs@, c.BSEs@.len() as int)
        + "\nJoining is done\n"@
}

impl ChainedBSE {
    /// A chain over existing nodes, shared rather than copied.
    pub fn new(BSEs: &Vec<Arc<BinarySymExpr>>, Op: Opcode) -> (r: ChainedBSE)
        ensures
            r.Op == Op,
            r.BSEs@ == BSEs@,
    {
        let mut v: Vec<Arc<BinarySymExpr>> = Vec::new();
        let mut i: usize = 0;
        while i < BSEs.len()
            invariant
                i <= BSEs@.len(),
                v@ == BSEs@.subrange(0, i as int),
            decreases BSEs@.len() - i,
        {
            v.push(BSEs[i].clone());
            i = i + 1;
            proof {
                assert(v@ =~= BSEs@.subrange(0, i as int));
            }
        }
        proof {
            assert(v@ =~= BSEs@);
        }
        ChainedBSE { Op, BSEs: v }
    }

    /// The text the joining pass reports: every member rendered in order.
    pub fn join_text(&self) -> (r: String)
        ensures
            r@ == spec_join_text(*self),
    {
        let mut out = String::from_str("Joining is happening attention\n");
        let mut i: usize = 0;
        while i < self.BSEs.len()
            invariant
                i <= self.BSEs@.len(),
                out@ == "Joining is happening attention\n"@ + join_upto(self.BSEs@, i as int),
            decreases self.BSEs@.len() - i,
        {
            out.append(self.BSEs[i].render_rec().as_str());
            out.append(" ");
            i = i + 1;
            proof {
                assert(out@ =~= "Joining is happening attention\n"@ + join_upto(
                    self.BSEs@,
                    i as int,
                ));
            }
        }
        out.append("\nJoining is done\n");
        proof {
            assert(out@ =~= spec_join_text(*self));
        }
        out
    }
}

impl Draw for ChainedBSE {
    open spec fn spec_render(&self) -> Seq<char> {
        "( "@ + spec_op_text(self.Op) + " )"@
    }

    open spec fn spec_declare(&self) -> Seq<char> {
        Seq::empty()
    }

    open spec fn spec_dump(&self, indent: nat) -> Seq<char> {
        sp(indent) + spec_op_text(self.Op) + "\n"@
    }

    open spec fn dump_depth(&self) -> nat {
        0
    }

    fn render(&self) -> (r: String) {
        let mut out = String::from_str("( ");
        out.append(self.Op.render().as_str());
        out.append(" )");
        proof {
            assert(out@ =~= self.spec_render());
        }
        out
    }

    fn declare(&self) -> (r: String) {
        String::new()
    }

    fn dump(&self, tabl: Option<usize>) -> (r: String) {
        let k: usize = match tabl {
            Some(k) => k,
            None => 0,
        };
        let mut out = spaces(k);
        out.append(self.Op.render().as_str());
        out.append("\n");
        proof {
            assert(out@ =~= self.spec_dump(spec_tabl(tabl)));
        }
        out
    }
}

} // verus!
