//! The syntax tree that the pass works on.
//!
//! The tree keeps what the pass reads and writes and nothing else: the
//! markup elements with what the source map says of their tags, the
//! declarations that open a scope, and how all of them nest.
use vstd::prelude::*;
use crate::scope::Declaration;
use crate::span::LineRange;
use crate::tag::TagName;

verus! {

/// An attribute of an opening tag.
#[derive(Debug, PartialEq, Eq)]
pub struct JsxAttr {
    pub name: String,
    pub value: String,
}

/// A markup element, without its children.
#[derive(Debug, PartialEq, Eq)]
pub struct JsxElement {
    /// The name in the opening tag.
    pub name: TagName,
    /// The file that the source map gives for the element.
    pub path: String,
    /// The line ranges that the source map gives for the opening tag.
    pub opening: Vec<LineRange>,
    /// The line ranges of the closing tag; `None` for a self-closing element.
    pub closing: Option<Vec<LineRange>>,
    /// The attributes of the opening tag.
    pub attrs: Vec<JsxAttr>,
}

/// What a node of the tree is.
#[derive(Debug, PartialEq, Eq)]
pub enum SyntaxKind {
    Element(JsxElement),
    Declaration(Declaration),
    /// Any other syntax: only what is nested in it matters.
    Other,
}

/// A node of the tree, with the nodes nested in it in source order.
#[derive(Debug, PartialEq, Eq)]
pub struct Syntax {
    pub kind: SyntaxKind,
    pub children: Vec<Syntax>,
}

impl SyntaxKind {
    /// The node is a host element.
    pub open spec fn is_host_element(self) -> bool {
        self matches SyntaxKind::Element(element) && element.name.is_host()
    }

    /// The number of attributes on the node.
    pub open spec fn attr_count(self) -> nat {
        match self {
            SyntaxKind::Element(element) => element.attrs@.len(),
            _ => 0,
        }
    }
}

/// The number of host elements in a tree.
pub open spec fn hosts(node: Syntax) -> nat
    decreases node,
{
    (if node.kind.is_host_element() { 1nat } else { 0nat }) + hosts_in(node.children@)
}

/// The number of host elements in a row of trees.
pub open spec fn hosts_in(nodes: Seq<Syntax>) -> nat
    decreases nodes,
{
    if nodes.len() == 0 {
        0
    } else {
        hosts_in(nodes.drop_last()) + hosts(nodes.last())
    }
}

/// The number of attributes in a tree.
pub open spec fn attrs(node: Syntax) -> nat
    decreases node,
{
    node.kind.attr_count() + attrs_in(node.children@)
}

/// The number of attributes in a row of trees.
pub open spec fn attrs_in(nodes: Seq<Syntax>) -> nat
    decreases nodes,
{
    if nodes.len() == 0 {
        0
    } else {
        attrs_in(nodes.drop_last()) + attrs(nodes.last())
    }
}


impl JsxAttr {
    /// The name and the value of the attribute, as texts.
    pub open spec fn text(self) -> (Seq<char>, Seq<char>) {
        (self.name@, self.value@)
    }
}

impl JsxElement {
    /// The two elements read the same: they agree in everything, their
    /// attributes in name and value.
    pub open spec fn same(self, other: JsxElement) -> bool {
        &&& self.name == other.name
        &&& self.path == other.path
        &&& self.opening == other.opening
        &&& self.closing == other.closing
        &&& self.attrs@.map_values(|attr: JsxAttr| attr.text()) == other.attrs@.map_values(
            |attr: JsxAttr| attr.text(),
        )
    }
}

impl SyntaxKind {
    /// The two nodes read the same.
    pub open spec fn same(self, other: SyntaxKind) -> bool {
        match self {
            SyntaxKind::Element(element) => other matches SyntaxKind::Element(twin) && element.same(twin),
            _ => other == self,
        }
    }
}

/// The two trees read the same.
pub open spec fn same(first: Syntax, second: Syntax) -> bool
    decreases first,
{
    first.kind.same(second.kind) && same_all(first.children@, second.children@)
}

/// The two rows of trees read the same.
pub open spec fn same_all(first: Seq<Syntax>, second: Seq<Syntax>) -> bool
    decreases first,
{
    &&& first.len() == second.len()
    &&& forall|i: int| 0 <= i < first.len() ==> same(#[trigger] first[i], second[i])
}

} // verus!
