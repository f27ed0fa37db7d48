//! The pass as a mathematical function of the tree and the state in which
//! the walk meets it, and what holds of every walk.
//!
//! A node is handled before the nodes nested in it. An element's template
//! node joins the gathered sequence when the element is met. At a host
//! element the sequence, this element's node last, is encoded and written on
//! the element as an attribute, and gathering starts afresh. A component
//! element gets no attribute: its node stays in the sequence until the walk
//! meets the next host element.
use vstd::prelude::*;
use crate::compress::compressed;
use crate::error::PassError;
use crate::node::TemplateNodeView;
use crate::scope::Declaration;
use crate::template::template_node;
use crate::tree::{JsxAttr, JsxElement, Syntax, SyntaxKind};
use crate::tree::{attrs, attrs_in, hosts, hosts_in, same, same_all};
use crate::wire::nodes_json;

verus! {

/// The name of the attribute that carries the payload.
pub const ATTRIBUTE_NAME: &'static str = "data-onlook-id";

/// The state of a walk.
pub ghost struct Pass {
    /// The names of the open scopes, the innermost last.
    pub stack: Seq<Seq<char>>,
    /// The template nodes gathered since the last flush, in the order met.
    pub ancestry: Seq<TemplateNodeView>,
    /// Every sequence flushed so far, the first flush first.
    pub flushed: Seq<Seq<TemplateNodeView>>,
}

impl Pass {
    /// The state in which a walk starts.
    pub open spec fn start() -> Pass {
        Pass { stack: Seq::empty(), ancestry: Seq::empty(), flushed: Seq::empty() }
    }
}

/// The state after an element was met in state `pass`. The element's
/// template node joins the gathered sequence. At a host element the sequence
/// is then flushed, which fails where the sequence cannot be encoded.
pub open spec fn element_entered(element: JsxElement, pass: Pass) -> Result<Pass, PassError> {
    match template_node(element, pass.stack) {
        Err(e) => Err(e),
        Ok(node) => {
            let gathered = pass.ancestry.push(node);
            if element.name.is_custom() {
                Ok(Pass { stack: pass.stack, ancestry: gathered, flushed: pass.flushed })
            } else {
                match compressed(nodes_json(gathered)) {
                    Err(e) => Err(e),
                    Ok(_) => Ok(
                        Pass { stack: pass.stack, ancestry: Seq::empty(), flushed: pass.flushed.push(gathered) },
                    ),
                }
            }
        },
    }
}

/// `after` is `before` as the pass leaves it when it meets the element in
/// state `pass`: a host element has one attribute more, last in its list,
/// which carries the payload of the sequence flushed there under
/// [`ATTRIBUTE_NAME`]; a component element is unchanged.
pub open spec fn element_stamped(before: JsxElement, after: JsxElement, pass: Pass) -> bool {
    &&& after.name == before.name
    &&& after.path == before.path
    &&& after.opening == before.opening
    &&& after.closing == before.closing
    &&& if before.name.is_custom() {
        after.attrs == before.attrs
    } else {
        &&& template_node(before, pass.stack) matches Ok(node)
        &&& compressed(nodes_json(pass.ancestry.push(node))) matches Ok(payload)
        &&& after.attrs@.len() == before.attrs@.len() + 1
        &&& after.attrs@.drop_last() == before.attrs@
        &&& after.attrs@.last().name@ == ATTRIBUTE_NAME@
        &&& after.attrs@.last().value@ == payload
    }
}

/// The state after a scope was opened, or left as it is for a declaration
/// that opens none.
pub open spec fn declaration_entered(declaration: Declaration, pass: Pass) -> Pass {
    match declaration.scope_name() {
        Some(name) => Pass { stack: pass.stack.push(name), ancestry: pass.ancestry, flushed: pass.flushed },
        None => pass,
    }
}

/// The state after the innermost scope was closed.
pub open spec fn scope_left(pass: Pass) -> Pass {
    if pass.stack.len() > 0 {
        Pass { stack: pass.stack.drop_last(), ancestry: pass.ancestry, flushed: pass.flushed }
    } else {
        pass
    }
}

/// The node opens a scope.
pub open spec fn opens_scope(kind: SyntaxKind) -> bool {
    kind matches SyntaxKind::Declaration(declaration) && declaration.scope_name() is Some
}

/// The state after a node was met, before the walk goes into it.
pub open spec fn entered(kind: SyntaxKind, pass: Pass) -> Result<Pass, PassError> {
    match kind {
        SyntaxKind::Element(element) => element_entered(element, pass),
        SyntaxKind::Declaration(declaration) => Ok(declaration_entered(declaration, pass)),
        SyntaxKind::Other => Ok(pass),
    }
}

/// The state after the walk has come back out of a node.
pub open spec fn left(kind: SyntaxKind, pass: Pass) -> Pass {
    if opens_scope(kind) {
        scope_left(pass)
    } else {
        pass
    }
}

/// The state after the walk over a tree that starts in state `pass`, or the
/// first failure on the way.
pub open spec fn visited(node: Syntax, pass: Pass) -> Result<Pass, PassError>
    decreases node,
{
    match entered(node.kind, pass) {
        Err(e) => Err(e),
        Ok(inside) => match visited_all(node.children@, inside) {
            Err(e) => Err(e),
            Ok(done) => Ok(left(node.kind, done)),
        },
    }
}

/// The state after the walk over a row of trees, one after the other.
pub open spec fn visited_all(nodes: Seq<Syntax>, pass: Pass) -> Result<Pass, PassError>
    decreases nodes,
{
    if nodes.len() == 0 {
        Ok(pass)
    } else {
        match visited_all(nodes.drop_last(), pass) {
            Err(e) => Err(e),
            Ok(so_far) => visited(nodes.last(), so_far),
        }
    }
}

/// `after` is the node `before` as the pass leaves it when it meets it in
/// state `pass`.
pub open spec fn kind_stamped(before: SyntaxKind, after: SyntaxKind, pass: Pass) -> bool {
    match before {
        SyntaxKind::Element(element) => after matches SyntaxKind::Element(stamped) && element_stamped(
            element,
            stamped,
            pass,
        ),
        _ => after == before,
    }
}

/// `after` is the tree `before` as a walk that starts in state `pass` and
/// does not fail leaves it: the same tree, but for the attributes that the
/// host elements have gained.
pub open spec fn stamped(before: Syntax, after: Syntax, pass: Pass) -> bool
    decreases before,
{
    &&& kind_stamped(before.kind, after.kind, pass)
    &&& entered(before.kind, pass) matches Ok(inside) && stamped_all(before.children@, after.children@, inside)
}

/// `afters` is the row `befores` as a walk that starts in state `pass` and
/// does not fail leaves it.
pub open spec fn stamped_all(befores: Seq<Syntax>, afters: Seq<Syntax>, pass: Pass) -> bool
    decreases befores,
{
    &&& afters.len() == befores.len()
    &&& befores.len() > 0 ==> {
        &&& stamped_all(befores.drop_last(), afters.drop_last(), pass)
        &&& visited_all(befores.drop_last(), pass) matches Ok(so_far) && stamped(
            befores.last(),
            afters.last(),
            so_far,
        )
    }
}

/// A walk over a row of trees that has failed after some of them has failed
/// in the same way after all of them.
pub proof fn lemma_failure_stays(nodes: Seq<Syntax>, met: int, pass: Pass)
    requires
        0 <= met <= nodes.len(),
        visited_all(nodes.take(met), pass) is Err,
    ensures
        visited_all(nodes, pass) == visited_all(nodes.take(met), pass),
    decreases nodes.len() - met,
{
    if met == nodes.len() {
        assert(nodes.take(met) =~= nodes);
    } else {
        assert(nodes.take(met + 1).drop_last() =~= nodes.take(met));
        lemma_failure_stays(nodes, met + 1, pass);
    }
}

/// The walk leaves the scopes as it found them: when it has come back out of
/// a tree, the scopes that are open are those that were open before.
pub proof fn lemma_scope_balance(node: Syntax, pass: Pass)
    requires
        visited(node, pass) is Ok,
    ensures
        visited(node, pass)->Ok_0.stack == pass.stack,
    decreases node,
{
    lemma_scope_balance_all(node.children@, entered(node.kind, pass)->Ok_0);
}

/// The walk over a row of trees leaves the scopes as it found them.
pub proof fn lemma_scope_balance_all(nodes: Seq<Syntax>, pass: Pass)
    requires
        visited_all(nodes, pass) is Ok,
    ensures
        visited_all(nodes, pass)->Ok_0.stack == pass.stack,
    decreases nodes,
{
    if nodes.len() > 0 {
        lemma_scope_balance_all(nodes.drop_last(), pass);
        lemma_scope_balance(nodes.last(), visited_all(nodes.drop_last(), pass)->Ok_0);
    }
}

/// The walk over a tree flushes once for each host element of the tree.
pub proof fn lemma_flushes_count_hosts(node: Syntax, pass: Pass)
    requires
        visited(node, pass) is Ok,
    ensures
        visited(node, pass)->Ok_0.flushed.len() == pass.flushed.len() + hosts(node),
    decreases node,
{
    lemma_flushes_count_hosts_all(node.children@, entered(node.kind, pass)->Ok_0);
}

/// The walk over a row of trees flushes once for each host element in it.
pub proof fn lemma_flushes_count_hosts_all(nodes: Seq<Syntax>, pass: Pass)
    requires
        visited_all(nodes, pass) is Ok,
    ensures
        visited_all(nodes, pass)->Ok_0.flushed.len() == pass.flushed.len() + hosts_in(nodes),
    decreases nodes,
{
    if nodes.len() > 0 {
        lemma_flushes_count_hosts_all(nodes.drop_last(), pass);
        lemma_flushes_count_hosts(nodes.last(), visited_all(nodes.drop_last(), pass)->Ok_0);
    }
}

/// The walk adds one attribute for each host element of the tree, and none
/// besides.
pub proof fn lemma_attributes_count_hosts(before: Syntax, after: Syntax, pass: Pass)
    requires
        stamped(before, after, pass),
    ensures
        attrs(after) == attrs(before) + hosts(before),
    decreases before,
{
    lemma_attributes_count_hosts_all(before.children@, after.children@, entered(before.kind, pass)->Ok_0);
}

/// The walk over a row of trees adds one attribute for each host element in
/// it, and none besides.
pub proof fn lemma_attributes_count_hosts_all(befores: Seq<Syntax>, afters: Seq<Syntax>, pass: Pass)
    requires
        stamped_all(befores, afters, pass),
    ensures
        attrs_in(afters) == attrs_in(befores) + hosts_in(befores),
    decreases befores,
{
    if befores.len() > 0 {
        lemma_attributes_count_hosts_all(befores.drop_last(), afters.drop_last(), pass);
        lemma_attributes_count_hosts(
            befores.last(),
            afters.last(),
            visited_all(befores.drop_last(), pass)->Ok_0,
        );
    }
}

/// A component element is never stamped: the walk leaves it with the
/// attributes that it had.
pub proof fn lemma_component_unstamped(before: Syntax, after: Syntax, pass: Pass)
    requires
        stamped(before, after, pass),
        before.kind matches SyntaxKind::Element(element) && element.name.is_custom(),
    ensures
        after.kind matches SyntaxKind::Element(element) && element.attrs == before.kind->Element_0.attrs,
{
}

/// The pass decides the tree that it leaves: two walks over the same tree
/// from the same state leave trees that read the same.
pub proof fn lemma_deterministic(before: Syntax, first: Syntax, second: Syntax, pass: Pass)
    requires
        stamped(before, first, pass),
        stamped(before, second, pass),
    ensures
        same(first, second),
    decreases before,
{
    if let SyntaxKind::Element(element) = before.kind {
        let one = first.kind->Element_0.attrs@;
        let two = second.kind->Element_0.attrs@;
        if element.name.is_host() {
            assert forall|i: int| 0 <= i < one.len() implies one[i].text() == two[i].text() by {
                if i < element.attrs@.len() {
                    assert(one[i] == one.drop_last()[i]);
                    assert(two[i] == two.drop_last()[i]);
                }
            }
            assert(one.map_values(|attr: JsxAttr| attr.text()) =~= two.map_values(|attr: JsxAttr| attr.text()));
        }
    }
    lemma_deterministic_all(before.children@, first.children@, second.children@, entered(before.kind, pass)->Ok_0);
}

/// Two walks over the same row of trees from the same state leave rows that
/// read the same.
pub proof fn lemma_deterministic_all(befores: Seq<Syntax>, first: Seq<Syntax>, second: Seq<Syntax>, pass: Pass)
    requires
        stamped_all(befores, first, pass),
        stamped_all(befores, second, pass),
    ensures
        same_all(first, second),
    decreases befores,
{
    if befores.len() > 0 {
        lemma_deterministic_all(befores.drop_last(), first.drop_last(), second.drop_last(), pass);
        lemma_deterministic(befores.last(), first.last(), second.last(), visited_all(befores.drop_last(), pass)->Ok_0);
        assert forall|i: int| 0 <= i < first.len() implies same(#[trigger] first[i], second[i]) by {
            if i < first.len() - 1 {
                assert(first[i] == first.drop_last()[i]);
                assert(second[i] == second.drop_last()[i]);
            }
        }
    }
}

/// State `later` can follow state `earlier` in a walk. What was flushed
/// stays flushed. Without a flush in between, what was gathered is still
/// there, in its order, at the head of what is gathered now. With a flush in
/// between, it is at the head of the first sequence flushed since.
pub open spec fn follows(earlier: Pass, later: Pass) -> bool {
    &&& earlier.flushed.is_prefix_of(later.flushed)
    &&& later.flushed.len() == earlier.flushed.len() ==> earlier.ancestry.is_prefix_of(later.ancestry)
    &&& later.flushed.len() > earlier.flushed.len() ==> earlier.ancestry.is_prefix_of(
        later.flushed[earlier.flushed.len() as int],
    )
}

/// What follows a state that follows another follows that other.
proof fn lemma_follows_chain(first: Pass, second: Pass, third: Pass)
    requires
        follows(first, second),
        follows(second, third),
    ensures
        follows(first, third),
{
}

/// The walk gathers in the order in which it meets the elements: the state
/// after a tree follows the state before it.
pub proof fn lemma_gathered_in_order(node: Syntax, pass: Pass)
    requires
        visited(node, pass) is Ok,
    ensures
        follows(pass, visited(node, pass)->Ok_0),
    decreases node,
{
    let inside = entered(node.kind, pass)->Ok_0;
    let done = visited_all(node.children@, inside)->Ok_0;
    lemma_gathered_in_order_all(node.children@, inside);
    lemma_follows_chain(pass, inside, done);
}

/// The state after a row of trees follows the state before it.
pub proof fn lemma_gathered_in_order_all(nodes: Seq<Syntax>, pass: Pass)
    requires
        visited_all(nodes, pass) is Ok,
    ensures
        follows(pass, visited_all(nodes, pass)->Ok_0),
    decreases nodes,
{
    if nodes.len() > 0 {
        let so_far = visited_all(nodes.drop_last(), pass)->Ok_0;
        lemma_gathered_in_order_all(nodes.drop_last(), pass);
        lemma_gathered_in_order(nodes.last(), so_far);
        lemma_follows_chain(pass, so_far, visited_all(nodes, pass)->Ok_0);
    }
}

/// A host element is stamped with what was gathered before it, in its order,
/// and then its own node.
pub proof fn lemma_host_node_comes_last(host: JsxElement, pass: Pass)
    requires
        host.name.is_host(),
        element_entered(host, pass) is Ok,
    ensures
        ({
            let node = template_node(host, pass.stack)->Ok_0;
            let done = element_entered(host, pass)->Ok_0;
            &&& done.flushed.len() == pass.flushed.len() + 1
            &&& done.flushed.last() == pass.ancestry.push(node)
            &&& done.ancestry.len() == 0
        }),
{
}

/// A component's node comes before the nodes of what is nested in it. When
/// the walk has met a component element and then, inside it, comes to a host
/// element, the sequence flushed at the first such element holds what was
/// gathered before the component, then the component's node, then whatever
/// was met from there to the host element.
pub proof fn lemma_component_precedes_nested(component: JsxElement, nested: Seq<Syntax>, pass: Pass)
    requires
        component.name.is_custom(),
        element_entered(component, pass) matches Ok(inside) && visited_all(nested, inside) matches Ok(done)
            && done.flushed.len() > pass.flushed.len(),
    ensures
        ({
            let node = template_node(component, pass.stack)->Ok_0;
            let done = visited_all(nested, element_entered(component, pass)->Ok_0)->Ok_0;
            pass.ancestry.push(node).is_prefix_of(done.flushed[pass.flushed.len() as int])
        }),
{
    lemma_gathered_in_order_all(nested, element_entered(component, pass)->Ok_0);
}

} // verus!
