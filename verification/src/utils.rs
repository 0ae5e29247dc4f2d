//! utils: the driver-facing surface. A fixed catalog of symbols, two per
//! supported type, and a first-match pair lookup over a symbol set.

use std::sync::Arc;

use vstd::prelude::*;

use crate::DataType::{spec_type_of_text, CDataTypes};
use crate::Symbol::{Sym, SymV};

verus! {

/// The views of a sequence of shared symbols.
pub open spec fn sym_views(s: Seq<Arc<Sym>>) -> Seq<SymV> {
    Seq::new(s.len(), |i: int| s[i]@)
}

/// The fixed symbol catalog: two symbols for every supported type other
/// than plain `char`.
pub open spec fn catalog_v() -> Seq<SymV> {
    seq![
        SymV { name: "sch1"@, ty: CDataTypes::SignedChar },
        SymV { name: "sch2"@, ty: CDataTypes::SignedChar },
        SymV { name: "uch1"@, ty: CDataTypes::UnsignedChar },
        SymV { name: "uch2"@, ty: CDataTypes::UnsignedChar },
        SymV { name: "sh1"@, ty: CDataTypes::Short },
        SymV { name: "sh2"@, ty: CDataTypes::Short },
        SymV { name: "ush1"@, ty: CDataTypes::UnsignedShort },
        SymV { name: "ush2"@, ty: CDataTypes::UnsignedShort },
        SymV { name: "u1"@, ty: CDataTypes::UnsignedInt },
        SymV { name: "u2"@, ty: CDataTypes::UnsignedInt },
        SymV { name: "s1"@, ty: CDataTypes::Int },
        SymV { name: "s2"@, ty: CDataTypes::Int },
    ]
}

/// The catalog's types, in declaration order.
pub open spec fn catalog_types() -> Seq<CDataTypes> {
    seq![
        CDataTypes::SignedChar,
        CDataTypes::UnsignedChar,
        CDataTypes::Short,
        CDataTypes::UnsignedShort,
        CDataTypes::UnsignedInt,
        CDataTypes::Int,
    ]
}

/// A symbol whose type text is known to parse.
pub(crate) fn sym_must(name: &str, dtype: &str) -> (r: Arc<Sym>)
    requires
        spec_type_of_text(dtype@) is Some,
    ensures
        r@.name == name@,
        Some(r@.ty) == spec_type_of_text(dtype@),
{
    match Sym::new(name, dtype) {
        Some(s) => s,
        None => vstd::pervasive::unreached(),
    }
}

/// Build the fixed symbol catalog: for every covered type, two symbols
/// named after the type's initials, and the list of those types.
pub fn set_of_syms() -> (r: (Vec<Arc<Sym>>, Vec<CDataTypes>))
    ensures
        sym_views(r.0@) == catalog_v(),
        r.1@ == catalog_types(),
{
    proof {
        crate::DataType::lemma_type_name_facts();
    }
    let mut set: Vec<Arc<Sym>> = Vec::new();
    let mut ty: Vec<CDataTypes> = Vec::new();

    set.push(sym_must("sch1", "signed char"));
    set.push(sym_must("sch2", "signed char"));
    ty.push(CDataTypes::SignedChar);

    set.push(sym_must("uch1", "unsigned char"));
    set.push(sym_must("uch2", "unsigned char"));
    ty.push(CDataTypes::UnsignedChar);

    set.push(sym_must("sh1", "short"));
    set.push(sym_must("sh2", "short"));
    ty.push(CDataTypes::Short);

    set.push(sym_must("ush1", "unsigned short"));
    set.push(sym_must("ush2", "unsigned short"));
    ty.push(CDataTypes::UnsignedShort);

    set.push(sym_must("u1", "unsigned int"));
    set.push(sym_must("u2", "unsigned int"));
    ty.push(CDataTypes::UnsignedInt);

    set.push(sym_must("s1", "signed int"));
    set.push(sym_must("s2", "signed int"));
    ty.push(CDataTypes::Int);

    proof {
        assert(sym_views(set@) =~= catalog_v());
        assert(ty@ =~= catalog_types());
    }
    (set, ty)
}

/// Positions `i` and `j` name a usable pair in `s`: the symbol at `i` has
/// type `ty1`, the one at `j` has type `ty2`, and the two are not the same
/// symbol (they differ in name or type).
pub open spec fn pair_ok(
    s: Seq<Arc<Sym>>,
    ty1: CDataTypes,
    ty2: CDataTypes,
    i: int,
    j: int,
) -> bool {
    &&& 0 <= i < s.len()
    &&& 0 <= j < s.len()
    &&& s[i].ty == ty1
    &&& s[j].ty == ty2
    &&& !(s[i].name@ == s[j].name@ && s[i].ty == s[j].ty)
}

/// `(i, j)` is the declaration-order first usable pair: no pair starts
/// earlier, and for this `i` no earlier `j` works.
pub open spec fn is_first_pair(
    s: Seq<Arc<Sym>>,
    ty1: CDataTypes,
    ty2: CDataTypes,
    i: int,
    j: int,
) -> bool {
    &&& pair_ok(s, ty1, ty2, i, j)
    &&& forall|i2: int, j2: int| #[trigger] pair_ok(s, ty1, ty2, i2, j2) ==> i <= i2
    &&& forall|j2: int| #[trigger] pair_ok(s, ty1, ty2, i, j2) ==> j <= j2
}

/// Find the first declaration-order pair of symbols with the given types.
/// `None` exactly when no such pair exists; with a fixed, caller-built
/// catalog that outcome signals a programming error, not a runtime
/// condition.
pub fn search_pair_of_types(Symset: &Vec<Arc<Sym>>, ty1: CDataTypes, ty2: CDataTypes) -> (r: Option<
    (Arc<Sym>, Arc<Sym>),
>)
    ensures
        match r {
            Some(p) => exists|i: int, j: int|
                #[trigger] is_first_pair(Symset@, ty1, ty2, i, j) && p.0 == Symset@[i] && p.1
                    == Symset@[j],
            None => forall|i: int, j: int| !pair_ok(Symset@, ty1, ty2, i, j),
        },
{
    let n = Symset.len();
    let mut i: usize = 0;
    while i < n
        invariant
            n == Symset@.len(),
            i <= n,
            forall|i2: int, j2: int| i2 < i ==> !(#[trigger] pair_ok(Symset@, ty1, ty2, i2, j2)),
        decreases n - i,
    {
        let sym1: &Sym = &Symset[i];
        if sym1.isa(ty1) {
            let mut j: usize = 0;
            while j < n
                invariant
                    n == Symset@.len(),
                    i < n,
                    j <= n,
                    sym1 == Symset@[i as int],
                    Symset@[i as int].ty == ty1,
                    forall|i2: int, j2: int| i2 < i ==> !(#[trigger] pair_ok(
                        Symset@,
                        ty1,
                        ty2,
                        i2,
                        j2,
                    )),
                    forall|j2: int| 0 <= j2 < j ==> !(#[trigger] pair_ok(
                        Symset@,
                        ty1,
                        ty2,
                        i as int,
                        j2,
                    )),
                decreases n - j,
            {
                let sym2: &Sym = &Symset[j];
                if !(sym1 == sym2) && sym2.isa(ty2) {
                    proof {
                        assert(pair_ok(Symset@, ty1, ty2, i as int, j as int));
                        assert(is_first_pair(Symset@, ty1, ty2, i as int, j as int));
                    }
                    return Some((Symset[i].clone(), Symset[j].clone()));
                }
                j = j + 1;
            }
        }
        i = i + 1;
    }
    None
}

} // verus!
