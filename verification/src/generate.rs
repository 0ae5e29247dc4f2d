//! generate: the generation pass. Builds the boundary corner-case test
//! for a pair of symbols, and assembles the full textual body of the
//! emitted test function: header, one guarded block per same-typed pair,
//! and footer. Writing the text anywhere is the caller's business.

use std::sync::Arc;

use vstd::prelude::*;
use vstd::string::StringExecFns;

use crate::BinOp::{spec_op_text, Opcode};
use crate::DataType::{is_supported, lemma_range_midpoint, spec_midpoint, spec_rank, CDataTypes};
use crate::Draw::Draw;
use crate::Expr::{is_cmp_sym_conc, render_bse, render_operand, BinarySymExpr, Operand};
use crate::Symbol::{sym_declare_v, Conc, Sym, SymV};
use crate::Test::{test_block, Test};
use crate::text::int_text;
use crate::utils::{catalog_types, catalog_v, is_first_pair, pair_ok, search_pair_of_types,
    set_of_syms, sym_views};

verus! {

/// The comma-separated text of every parameter before the last one, each
/// on its own indented line.
pub open spec fn params_prefix(vs: Seq<SymV>, i: int) -> Seq<char>
    decreases i,
{
    if i <= 0 {
        Seq::empty()
    } else {
        params_prefix(vs, i - 1) + "\n\t"@ + sym_declare_v(vs[i - 1]) + ", "@
    }
}

/// The full parameter-list text: every symbol but the last as
/// `"\n\t<decl>, "`, the last as its bare declaration.
pub open spec fn spec_params(vs: Seq<SymV>) -> Seq<char> {
    if vs.len() == 0 {
        Seq::empty()
    } else {
        params_prefix(vs, vs.len() - 1) + sym_declare_v(vs[vs.len() - 1])
    }
}

/// The emitted function header: the forward declaration of the analyzer's
/// evaluation hook, then the test function's signature over the given
/// symbols, opening its body.
pub open spec fn spec_header(fn_name: Seq<char>, vs: Seq<SymV>) -> Seq<char> {
    "\nvoid clang_analyzer_eval(int);\n\nint "@ + fn_name + "("@ + spec_params(vs) + ") {"@
}

/// The emitted function footer, closing the body.
pub open spec fn spec_footer() -> Seq<char> {
    "\n  return 0;\n}"@
}

/// Header text of the emitted test function over the given symbols.
pub fn header_text(fn_name: &str, syms: &[Arc<Sym>]) -> (r: String)
    ensures
        r@ == spec_header(fn_name@, sym_views(syms@)),
{
    let ghost vs = sym_views(syms@);
    let mut out = String::from_str("\nvoid clang_analyzer_eval(int);\n\nint ");
    out.append(fn_name);
    out.append("(");
    let ghost head = out@;
    proof {
        assert(head =~= "\nvoid clang_analyzer_eval(int);\n\nint "@ + fn_name@ + "("@);
    }
    let n = syms.len();
    let mut i: usize = 0;
    while i < n
        invariant
            n == syms@.len(),
            i <= n,
            vs == sym_views(syms@),
            n == 0 ==> out@ == head,
            i < n ==> out@ == head + params_prefix(vs, i as int),
            i == n && n > 0 ==> out@ == head + spec_params(vs),
        decreases n - i,
    {
        let s: &Sym = &syms[i];
        let decl = s.declare();
        if i + 1 == n {
            out.append(decl.as_str());
            proof {
                assert(out@ =~= head + spec_params(vs));
            }
        } else {
            out.append("\n\t");
            out.append(decl.as_str());
            out.append(", ");
            proof {
                assert(out@ =~= head + params_prefix(vs, i + 1 as int));
            }
        }
        i = i + 1;
    }
    out.append(") {");
    proof {
        assert(out@ =~= spec_header(fn_name@, vs));
    }
    out
}

/// Footer text of the emitted test function.
pub fn footer_text() -> (r: String)
    ensures
        r@ == spec_footer(),
{
    String::from_str("\n  return 0;\n}")
}

/// What one generation step produced for a pair of symbols: a test for a
/// same-typed pair, or the named no-op reserved for each direction of a
/// cross-typed pair, for which no test is emitted today.
pub enum CornerCase {
    SameType(Arc<Test>),
    CrossTypeLowerRankFirst,
    CrossTypeHigherRankFirst,
}

/// `e` is the corner-case guard `(s1 <= M-3) && (s2 >= M+3)` over
/// literals of type `t` with midpoint `m`.
pub open spec fn is_corner_guard(
    e: BinarySymExpr,
    s1: Sym,
    s2: Sym,
    m: int,
    t: CDataTypes,
) -> bool {
    &&& e.Op == Opcode::LAnd
    &&& e.LHS matches Operand::Expr(l) && is_cmp_sym_conc(*l, s1, Opcode::LE, m - 3, t)
    &&& e.RHS matches Operand::Expr(r) && is_cmp_sym_conc(*r, s2, Opcode::GE, m + 3, t)
}

/// `e` is the comparison `s1 <op> s2` over two symbols.
pub open spec fn is_sym_pair_cmp(e: BinarySymExpr, s1: Sym, s2: Sym, op: Opcode) -> bool {
    &&& e.Op == op
    &&& e.LHS matches Operand::Symbol(a) && *a == s1
    &&& e.RHS matches Operand::Symbol(b) && *b == s2
}

/// Ranks coincide only on equal types.
proof fn lemma_rank_injective(t1: CDataTypes, t2: CDataTypes)
    requires
        spec_rank(t1) == spec_rank(t2),
    ensures
        t1 == t2,
{
    match t1 {
        CDataTypes::Char => assert(t2 == CDataTypes::Char),
        CDataTypes::SignedChar => assert(t2 == CDataTypes::SignedChar),
        CDataTypes::UnsignedChar => assert(t2 == CDataTypes::UnsignedChar),
        CDataTypes::Short => assert(t2 == CDataTypes::Short),
        CDataTypes::UnsignedShort => assert(t2 == CDataTypes::UnsignedShort),
        CDataTypes::Int => assert(t2 == CDataTypes::Int),
        CDataTypes::UnsignedInt => assert(t2 == CDataTypes::UnsignedInt),
        CDataTypes::Long => assert(t2 == CDataTypes::Long),
        CDataTypes::UnsignedLong => assert(t2 == CDataTypes::UnsignedLong),
        CDataTypes::LongLong => assert(t2 == CDataTypes::LongLong),
        CDataTypes::UnsignedLongLong => assert(t2 == CDataTypes::UnsignedLongLong),
        CDataTypes::Float => assert(t2 == CDataTypes::Float),
        CDataTypes::Double => assert(t2 == CDataTypes::Double),
        CDataTypes::LongDouble => assert(t2 == CDataTypes::LongDouble),
    }
}

/// Build the corner-case test for two symbols. For a same-typed pair the
/// guard confines `S1` to `[M-3, M-1]`'s outer bound and `S2` to
/// `[M+1, M+3]`'s outer bound — two disjoint ranges straddling the type's
/// midpoint with a one-value gap — and the assertion is `S1 <Op> S2`. A
/// cross-typed pair yields the explicit no-op for its rank direction.
pub fn build_corner_test(S1: &Arc<Sym>, S2: &Arc<Sym>, Op: Opcode) -> (r: CornerCase)
    requires
        S1.ty == S2.ty ==> is_supported(S1.ty),
    ensures
        S1.ty == S2.ty ==> (r matches CornerCase::SameType(t) && is_corner_guard(
            *t.Conditional,
            **S1,
            **S2,
            spec_midpoint(S1.ty),
            S1.ty,
        ) && is_sym_pair_cmp(*t.Assertion, **S1, **S2, Op)),
        S1.ty != S2.ty && spec_rank(S1.ty) < spec_rank(S2.ty) ==> r
            == CornerCase::CrossTypeLowerRankFirst,
        S1.ty != S2.ty && spec_rank(S1.ty) > spec_rank(S2.ty) ==> r
            == CornerCase::CrossTypeHigherRankFirst,
{
    if S1.isa(S2.getType()) {
        let t = S1.getType();
        let m = (&t).midpoint();
        proof {
            lemma_range_midpoint();
        }
        let conc_lo = Conc::new(m - 3, t);
        let conc_hi = Conc::new(m + 3, t);
        let lhs = BinarySymExpr::new(
            &Operand::Symbol(S1.clone()),
            &Operand::Concrete(conc_lo),
            Opcode::LE,
        );
        let rhs = BinarySymExpr::new(
            &Operand::Symbol(S2.clone()),
            &Operand::Concrete(conc_hi),
            Opcode::GE,
        );
        let cond = BinarySymExpr::new(&Operand::Expr(lhs), &Operand::Expr(rhs), Opcode::LAnd);
        let assertion = BinarySymExpr::new(
            &Operand::Symbol(S1.clone()),
            &Operand::Symbol(S2.clone()),
            Op,
        );
        CornerCase::SameType(Test::new(&cond, &assertion))
    } else {
        let r1 = S1.getType().rank();
        let r2 = S2.getType().rank();
        proof {
            if spec_rank(S1.ty) == spec_rank(S2.ty) {
                lemma_rank_injective(S1.ty, S2.ty);
            }
        }
        if r1 < r2 {
            CornerCase::CrossTypeLowerRankFirst
        } else {
            CornerCase::CrossTypeHigherRankFirst
        }
    }
}


/// Value-rendering text of the comparison `(<n> <op> <v>)` between a
/// symbol named `n` and the literal `v`.
pub open spec fn cmp_text(n: Seq<char>, op: Opcode, v: int) -> Seq<char> {
    "("@ + n + " "@ + spec_op_text(op) + " "@ + int_text(v) + ")"@
}

/// Value-rendering text of the corner-case guard for a same-typed pair:
/// `((<n1> <= M-3) && (<n2> >= M+3))`.
pub open spec fn corner_guard_text(t: CDataTypes, n1: Seq<char>, n2: Seq<char>) -> Seq<char> {
    "("@ + cmp_text(n1, Opcode::LE, spec_midpoint(t) - 3) + " "@ + spec_op_text(Opcode::LAnd)
        + " "@ + cmp_text(n2, Opcode::GE, spec_midpoint(t) + 3) + ")"@
}

/// Value-rendering text of the comparison `(<n1> <op> <n2>)` between two
/// symbols.
pub open spec fn sym_cmp_text(n1: Seq<char>, op: Opcode, n2: Seq<char>) -> Seq<char> {
    "("@ + n1 + " "@ + spec_op_text(op) + " "@ + n2 + ")"@
}

/// The full emitted block for one same-typed pair.
pub open spec fn corner_block(t: CDataTypes, n1: Seq<char>, n2: Seq<char>, op: Opcode) -> Seq<
    char,
> {
    test_block(corner_guard_text(t, n1, n2), sym_cmp_text(n1, op, n2))
}

/// The blocks emitted for the first `k` catalog types, in catalog order.
pub open spec fn blocks_upto(op: Opcode, k: int) -> Seq<char>
    decreases k,
{
    if k <= 0 {
        Seq::empty()
    } else {
        blocks_upto(op, k - 1) + corner_block(
            catalog_types()[k - 1],
            catalog_v()[2 * (k - 1)].name,
            catalog_v()[2 * (k - 1) + 1].name,
            op,
        )
    }
}

/// The whole generated file body for one operator: header over the fixed
/// catalog, one corner-case block per catalog type, and the footer. The
/// cross-typed pairs the driver also walks contribute nothing today.
pub open spec fn spec_fuzz_text(op: Opcode) -> Seq<char> {
    spec_header("foo"@, catalog_v()) + blocks_upto(op, 6) + spec_footer()
}

/// Rendering a corner-case guard tree gives exactly the guard text.
proof fn lemma_corner_guard_render(e: &BinarySymExpr, s1: &Sym, s2: &Sym, t: CDataTypes)
    requires
        is_corner_guard(*e, *s1, *s2, spec_midpoint(t), t),
    ensures
        render_bse(*e) == corner_guard_text(t, s1.name@, s2.name@),
{
    let m = spec_midpoint(t);
    match e.LHS {
        Operand::Expr(l) => {
            match (*l).LHS {
                Operand::Symbol(a) => {
                    assert(render_operand((*l).LHS) == s1.name@);
                },
                _ => {
                    assert(false);
                },
            }
            match (*l).RHS {
                Operand::Concrete(c) => {
                    assert(render_operand((*l).RHS) == int_text(m - 3));
                },
                _ => {
                    assert(false);
                },
            }
            assert(render_bse(*l) == cmp_text(s1.name@, Opcode::LE, m - 3));
        },
        _ => {
            assert(false);
        },
    }
    match e.RHS {
        Operand::Expr(r) => {
            match (*r).LHS {
                Operand::Symbol(b) => {
                    assert(render_operand((*r).LHS) == s2.name@);
                },
                _ => {
                    assert(false);
                },
            }
            match (*r).RHS {
                Operand::Concrete(c) => {
                    assert(render_operand((*r).RHS) == int_text(m + 3));
                },
                _ => {
                    assert(false);
                },
            }
            assert(render_bse(*r) == cmp_text(s2.name@, Opcode::GE, m + 3));
        },
        _ => {
            assert(false);
        },
    }
}

/// Rendering a two-symbol comparison tree gives exactly its text.
proof fn lemma_sym_pair_render(e: &BinarySymExpr, s1: &Sym, s2: &Sym, op: Opcode)
    requires
        is_sym_pair_cmp(*e, *s1, *s2, op),
    ensures
        render_bse(*e) == sym_cmp_text(s1.name@, op, s2.name@),
{
    match e.LHS {
        Operand::Symbol(a) => {
            assert(render_operand(e.LHS) == s1.name@);
        },
        _ => {
            assert(false);
        },
    }
    match e.RHS {
        Operand::Symbol(b) => {
            assert(render_operand(e.RHS) == s2.name@);
        },
        _ => {
            assert(false);
        },
    }
}

/// Ground facts of the catalog: its length and every member's name and
/// type.
proof fn lemma_catalog_facts(s: Seq<Arc<Sym>>)
    requires
        sym_views(s) == catalog_v(),
    ensures
        s.len() == 12,
        s[0].ty == CDataTypes::SignedChar && s[0].name@ == "sch1"@,
        s[1].ty == CDataTypes::SignedChar && s[1].name@ == "sch2"@,
        s[2].ty == CDataTypes::UnsignedChar && s[2].name@ == "uch1"@,
        s[3].ty == CDataTypes::UnsignedChar && s[3].name@ == "uch2"@,
        s[4].ty == CDataTypes::Short && s[4].name@ == "sh1"@,
        s[5].ty == CDataTypes::Short && s[5].name@ == "sh2"@,
        s[6].ty == CDataTypes::UnsignedShort && s[6].name@ == "ush1"@,
        s[7].ty == CDataTypes::UnsignedShort && s[7].name@ == "ush2"@,
        s[8].ty == CDataTypes::UnsignedInt && s[8].name@ == "u1"@,
        s[9].ty == CDataTypes::UnsignedInt && s[9].name@ == "u2"@,
        s[10].ty == CDataTypes::Int && s[10].name@ == "s1"@,
        s[11].ty == CDataTypes::Int && s[11].name@ == "s2"@,
{
    assert(sym_views(s).len() == s.len());
    assert(catalog_v().len() == 12);
    assert forall|i: int| 0 <= i < 12 implies s[i]@ == catalog_v()[i] by {
        assert(sym_views(s)[i] == s[i]@);
    }
    assert(s[0]@ == catalog_v()[0]);
    assert(s[1]@ == catalog_v()[1]);
    assert(s[2]@ == catalog_v()[2]);
    assert(s[3]@ == catalog_v()[3]);
    assert(s[4]@ == catalog_v()[4]);
    assert(s[5]@ == catalog_v()[5]);
    assert(s[6]@ == catalog_v()[6]);
    assert(s[7]@ == catalog_v()[7]);
    assert(s[8]@ == catalog_v()[8]);
    assert(s[9]@ == catalog_v()[9]);
    assert(s[10]@ == catalog_v()[10]);
    assert(s[11]@ == catalog_v()[11]);
}

/// The names of the two catalog symbols of one type differ.
proof fn lemma_catalog_names_differ()
    ensures
        "sch1"@ != "sch2"@,
        "uch1"@ != "uch2"@,
        "sh1"@ != "sh2"@,
        "ush1"@ != "ush2"@,
        "u1"@ != "u2"@,
        "s1"@ != "s2"@,
{
    broadcast use vstd::string::group_string_axioms;

    reveal_strlit("sch1");
    reveal_strlit("sch2");
    reveal_strlit("uch1");
    reveal_strlit("uch2");
    reveal_strlit("sh1");
    reveal_strlit("sh2");
    reveal_strlit("ush1");
    reveal_strlit("ush2");
    reveal_strlit("u1");
    reveal_strlit("u2");
    reveal_strlit("s1");
    reveal_strlit("s2");
    assert("sch1"@.len() == 4 && "sch1"@[3] == '1');
    assert("sch2"@.len() == 4 && "sch2"@[3] == '2');
    assert("uch1"@.len() == 4 && "uch1"@[3] == '1');
    assert("uch2"@.len() == 4 && "uch2"@[3] == '2');
    assert("sh1"@.len() == 3 && "sh1"@[2] == '1');
    assert("sh2"@.len() == 3 && "sh2"@[2] == '2');
    assert("ush1"@.len() == 4 && "ush1"@[3] == '1');
    assert("ush2"@.len() == 4 && "ush2"@[3] == '2');
    assert("u1"@.len() == 2 && "u1"@[1] == '1');
    assert("u2"@.len() == 2 && "u2"@[1] == '2');
    assert("s1"@.len() == 2 && "s1"@[1] == '1');
    assert("s2"@.len() == 2 && "s2"@[1] == '2');
}

/// For the fixed catalog, the first pair of the `k`-th catalog type with
/// itself sits exactly at positions `2k` and `2k + 1`.
proof fn lemma_catalog_search(s: Seq<Arc<Sym>>, k: int)
    requires
        sym_views(s) == catalog_v(),
        0 <= k < 6,
    ensures
        is_supported(catalog_types()[k]),
        pair_ok(s, catalog_types()[k], catalog_types()[k], 2 * k, 2 * k + 1),
        forall|i: int, j: int| #[trigger] pair_ok(s, catalog_types()[k], catalog_types()[k], i, j)
            ==> 2 * k <= i,
        forall|j: int| #[trigger] pair_ok(s, catalog_types()[k], catalog_types()[k], 2 * k, j)
            ==> 2 * k + 1 <= j,
{
    lemma_catalog_facts(s);
    lemma_catalog_names_differ();
    assert(catalog_types()[0] == CDataTypes::SignedChar);
    assert(catalog_types()[1] == CDataTypes::UnsignedChar);
    assert(catalog_types()[2] == CDataTypes::Short);
    assert(catalog_types()[3] == CDataTypes::UnsignedShort);
    assert(catalog_types()[4] == CDataTypes::UnsignedInt);
    assert(catalog_types()[5] == CDataTypes::Int);
    let t = catalog_types()[k];
    assert(pair_ok(s, t, t, 2 * k, 2 * k + 1));
    assert forall|i: int, j: int| #[trigger] pair_ok(s, t, t, i, j) implies 2 * k <= i by {
        assert(s[i].ty == t);
    }
    assert forall|j: int| #[trigger] pair_ok(s, t, t, 2 * k, j) implies 2 * k + 1 <= j by {
        assert(s[j].ty == t);
    }
}

/// Every catalog position holds the catalog type of its pair slot, and
/// distinct slots hold distinct types.
proof fn lemma_catalog_slots(s: Seq<Arc<Sym>>)
    requires
        sym_views(s) == catalog_v(),
    ensures
        forall|x: int| 0 <= x < 6 ==> s[2 * x].ty == #[trigger] catalog_types()[x] && s[2 * x
            + 1].ty == catalog_types()[x],
        forall|x: int, y: int| 0 <= x < 6 && 0 <= y < 6 && x != y ==> #[trigger] catalog_types()[x]
            != #[trigger] catalog_types()[y],
        s.len() == 12,
{
    lemma_catalog_facts(s);
    assert(catalog_types()[0] == CDataTypes::SignedChar);
    assert(catalog_types()[1] == CDataTypes::UnsignedChar);
    assert(catalog_types()[2] == CDataTypes::Short);
    assert(catalog_types()[3] == CDataTypes::UnsignedShort);
    assert(catalog_types()[4] == CDataTypes::UnsignedInt);
    assert(catalog_types()[5] == CDataTypes::Int);
}

/// Assemble the whole generated file body for one operator: the header
/// over the fixed catalog, one corner-case block for each same-typed
/// pair, nothing for the cross-typed pairs, and the footer.
pub fn fuzz_text(Op: Opcode) -> (r: String)
    ensures
        r@ == spec_fuzz_text(Op),
{
    let (Symset, AvailableTypes) = set_of_syms();
    proof {
        assert(AvailableTypes@.len() == 6);
    }
    let mut out = header_text("foo", Symset.as_slice());

    let mut k: usize = 0;
    while k < AvailableTypes.len()
        invariant
            sym_views(Symset@) == catalog_v(),
            AvailableTypes@ == catalog_types(),
            AvailableTypes@.len() == 6,
            k <= 6,
            out@ == spec_header("foo"@, catalog_v()) + blocks_upto(Op, k as int),
        decreases 6 - k,
    {
        let ty = AvailableTypes[k];
        proof {
            lemma_catalog_search(Symset@, k as int);
        }
        let pair = search_pair_of_types(&Symset, ty, ty);
        match pair {
            Some((S1, S2)) => {
                proof {
                    let (i0, j0): (int, int) = choose|i0: int, j0: int|
                        is_first_pair(Symset@, ty, ty, i0, j0) && S1 == Symset@[i0] && S2
                            == Symset@[j0];
                    assert(pair_ok(Symset@, ty, ty, i0, j0));
                    assert(pair_ok(Symset@, ty, ty, 2 * (k as int), 2 * (k as int) + 1));
                    assert(i0 == 2 * (k as int));
                    assert(j0 == 2 * (k as int) + 1);
                    assert(S1@ == catalog_v()[2 * (k as int)]);
                    assert(S2@ == catalog_v()[2 * (k as int) + 1]);
                }
                let cc = build_corner_test(&S1, &S2, Op);
                match cc {
                    CornerCase::SameType(t) => {
                        let block = t.render();
                        proof {
                            let ghost n1 = catalog_v()[2 * (k as int)].name;
                            let ghost n2 = catalog_v()[2 * (k as int) + 1].name;
                            lemma_corner_guard_render(&*t.Conditional, &*S1, &*S2, ty);
                            lemma_sym_pair_render(&*t.Assertion, &*S1, &*S2, Op);
                            assert(render_bse(*t.Conditional) == corner_guard_text(ty, n1, n2));
                            assert(render_bse(*t.Assertion) == sym_cmp_text(n1, Op, n2));
                            assert(block@ == corner_block(ty, n1, n2, Op));
                        }
                        out.append(block.as_str());
                        proof {
                            assert(out@ =~= spec_header("foo"@, catalog_v()) + blocks_upto(
                                Op,
                                k as int + 1,
                            ));
                        }
                    },
                    CornerCase::CrossTypeLowerRankFirst => {
                        proof {
                            assert(false);
                        }
                    },
                    CornerCase::CrossTypeHigherRankFirst => {
                        proof {
                            assert(false);
                        }
                    },
                }
            },
            None => {
                proof {
                    assert(false);
                }
            },
        }
        k = k + 1;
    }

    let n = AvailableTypes.len();
    let mut a: usize = 0;
    while a < n
        invariant
            sym_views(Symset@) == catalog_v(),
            AvailableTypes@ == catalog_types(),
            n == 6,
            a <= n,
            out@ == spec_header("foo"@, catalog_v()) + blocks_upto(Op, 6),
        decreases n - a,
    {
        let mut b: usize = a + 1;
        while b < n
            invariant
                sym_views(Symset@) == catalog_v(),
                AvailableTypes@ == catalog_types(),
                n == 6,
                a < n,
                a < b,
                b <= n,
                out@ == spec_header("foo"@, catalog_v()) + blocks_upto(Op, 6),
            decreases n - b,
        {
            let ty1 = AvailableTypes[a];
            let ty2 = AvailableTypes[b];
            proof {
                lemma_catalog_slots(Symset@);
                assert(ty1 != ty2);
                assert(pair_ok(Symset@, ty1, ty2, 2 * (a as int), 2 * (b as int)));
            }
            let pair = search_pair_of_types(&Symset, ty1, ty2);
            match pair {
                Some((S1, S2)) => {
                    proof {
                        let (i0, j0): (int, int) = choose|i0: int, j0: int|
                            is_first_pair(Symset@, ty1, ty2, i0, j0) && S1 == Symset@[i0] && S2
                                == Symset@[j0];
                        assert(S1.ty == ty1 && S2.ty == ty2);
                        if spec_rank(S1.ty) == spec_rank(S2.ty) {
                            lemma_rank_injective(S1.ty, S2.ty);
                        }
                    }
                    let cc = build_corner_test(&S1, &S2, Op);
                    match cc {
                        CornerCase::SameType(_t) => {
                            proof {
                                assert(false);
                            }
                        },
                        CornerCase::CrossTypeLowerRankFirst => {},
                        CornerCase::CrossTypeHigherRankFirst => {},
                    }
                },
                None => {
                    proof {
                        assert(false);
                    }
                },
            }
            b = b + 1;
        }
        a = a + 1;
    }

    let foot = footer_text();
    out.append(foot.as_str());
    proof {
        assert(out@ =~= spec_fuzz_text(Op));
    }
    out
}


/// Rendering a symbol-vs-literal comparison tree gives exactly its text.
proof fn lemma_cmp_render(e: &BinarySymExpr, s: &Sym, op: Opcode, v: int, t: CDataTypes)
    requires
        is_cmp_sym_conc(*e, *s, op, v, t),
    ensures
        render_bse(*e) == cmp_text(s.name@, op, v),
{
    match e.LHS {
        Operand::Symbol(a) => {
            assert(render_operand(e.LHS) == s.name@);
        },
        _ => {
            assert(false);
        },
    }
    match e.RHS {
        Operand::Concrete(c) => {
            assert(render_operand(e.RHS) == int_text(v));
        },
        _ => {
            assert(false);
        },
    }
}

/// The symbols of the demonstration pass over the remaining rules.
pub open spec fn remained_rules_syms() -> Seq<SymV> {
    seq![
        SymV { name: "a"@, ty: CDataTypes::UnsignedInt },
        SymV { name: "b"@, ty: CDataTypes::UnsignedInt },
        SymV { name: "c"@, ty: CDataTypes::Int },
        SymV { name: "d"@, ty: CDataTypes::Int },
    ]
}

/// The text of the demonstration pass: a header over four symbols and one
/// test whose guard bounds `a` and `b` and whose assertion constrains
/// `a % b` below `50`.
pub open spec fn spec_remained_rules() -> Seq<char> {
    spec_header("bar"@, remained_rules_syms()) + test_block(
        "("@ + cmp_text("a"@, Opcode::LE, 30) + " "@ + spec_op_text(Opcode::LAnd) + " "@
            + cmp_text("b"@, Opcode::LE, 50) + ")"@,
        "("@ + sym_cmp_text("a"@, Opcode::Rem, "b"@) + " "@ + spec_op_text(Opcode::LT) + " "@
            + int_text(50) + ")"@,
    )
}

/// Build the demonstration pass over the remaining rules: four symbols,
/// one guarded assertion about `a % b`, all as one piece of text.
pub fn remained_rules_text() -> (r: String)
    ensures
        r@ == spec_remained_rules(),
{
    proof {
        crate::DataType::lemma_type_name_facts();
    }
    let a = crate::utils::sym_must("a", "unsigned int");
    let b = crate::utils::sym_must("b", "unsigned int");
    let c = crate::utils::sym_must("c", "int");
    let d = crate::utils::sym_must("d", "int");
    let conc30 = Conc::new(30, CDataTypes::Int);
    let conc50 = Conc::new(50, CDataTypes::Int);

    let cond1 = BinarySymExpr::new(
        &Operand::Symbol(a.clone()),
        &Operand::Concrete(conc30.clone()),
        Opcode::LE,
    );
    let cond2 = BinarySymExpr::new(
        &Operand::Symbol(b.clone()),
        &Operand::Concrete(conc50.clone()),
        Opcode::LE,
    );
    let amodb = BinarySymExpr::new(
        &Operand::Symbol(a.clone()),
        &Operand::Symbol(b.clone()),
        Opcode::Rem,
    );
    let cond = BinarySymExpr::new(&Operand::Expr(cond1.clone()), &Operand::Expr(cond2.clone()), Opcode::LAnd);
    let amodbl50 = BinarySymExpr::new(
        &Operand::Expr(amodb.clone()),
        &Operand::Concrete(conc50.clone()),
        Opcode::LT,
    );
    let T1 = Test::new(&cond, &amodbl50);

    let mut syms: Vec<Arc<Sym>> = Vec::new();
    syms.push(a.clone());
    syms.push(b.clone());
    syms.push(c.clone());
    syms.push(d.clone());
    let mut out = header_text("bar", syms.as_slice());
    proof {
        assert(sym_views(syms@) =~= remained_rules_syms());
    }

    let block = T1.render();
    proof {
        assert(is_cmp_sym_conc(*cond1, *a, Opcode::LE, 30, CDataTypes::Int));
        lemma_cmp_render(&*cond1, &*a, Opcode::LE, 30, CDataTypes::Int);
        assert(is_cmp_sym_conc(*cond2, *b, Opcode::LE, 50, CDataTypes::Int));
        lemma_cmp_render(&*cond2, &*b, Opcode::LE, 50, CDataTypes::Int);
        assert(is_sym_pair_cmp(*amodb, *a, *b, Opcode::Rem));
        lemma_sym_pair_render(&*amodb, &*a, &*b, Opcode::Rem);
        assert(render_operand((*cond).LHS) == cmp_text("a"@, Opcode::LE, 30));
        assert(render_operand((*cond).RHS) == cmp_text("b"@, Opcode::LE, 50));
        assert(render_bse(*cond) == "("@ + cmp_text("a"@, Opcode::LE, 30) + " "@ + spec_op_text(
            Opcode::LAnd,
        ) + " "@ + cmp_text("b"@, Opcode::LE, 50) + ")"@);
        assert(render_operand((*amodbl50).LHS) == sym_cmp_text("a"@, Opcode::Rem, "b"@));
        assert(render_operand((*amodbl50).RHS) == int_text(50));
        assert(render_bse(*amodbl50) == "("@ + sym_cmp_text("a"@, Opcode::Rem, "b"@) + " "@
            + spec_op_text(Opcode::LT) + " "@ + int_text(50) + ")"@);
    }
    out.append(block.as_str());
    proof {
        assert(out@ =~= spec_remained_rules());
    }
    out
}

} // verus!
