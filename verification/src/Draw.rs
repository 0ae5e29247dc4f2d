//! Draw: the rendering capability shared by symbols, literals, expression
//! trees and test cases. Value rendering produces the text emitted into
//! generated source; declaration rendering produces a C-style declaration
//! for leaves and the empty string for composites; the tree dump is a
//! multi-line indented diagnostic form.

use vstd::prelude::*;

verus! {

/// The indent a caller asked for: `None` stands for zero.
pub open spec fn spec_tabl(tabl: Option<usize>) -> nat {
    match tabl {
        Some(k) => k as nat,
        None => 0,
    }
}

/// Rendering capability: value text, declaration text, and an indented
/// tree dump.
pub trait Draw: Sized {
    /// Value rendering of this node.
    spec fn spec_render(&self) -> Seq<char>;

    /// Declaration rendering of this node.
    spec fn spec_declare(&self) -> Seq<char>;

    /// Tree-dump rendering of this node at the given indent.
    spec fn spec_dump(&self, indent: nat) -> Seq<char>;

    /// How many levels of extra indent the dump adds below this node.
    spec fn dump_depth(&self) -> nat;

    /// Value text of this node, exactly `spec_render`.
    fn render(&self) -> (r: String)
        ensures
            r@ == self.spec_render(),
    ;

    /// Declaration text of this node, exactly `spec_declare`.
    fn declare(&self) -> (r: String)
        ensures
            r@ == self.spec_declare(),
    ;

    /// Dump this node in a tree-like structure, each nesting level
    /// indented four columns further than `tabl`.
    fn dump(&self, tabl: Option<usize>) -> (r: String)
        requires
            spec_tabl(tabl) + 4 * self.dump_depth() <= usize::MAX,
        ensures
            r@ == self.spec_dump(spec_tabl(tabl)),
    ;
}

} // verus!
