//! From a markup element to its template node.
use vstd::prelude::*;
use crate::compress::{compressed, decoded, encode_node, is_base64_char};
use crate::error::PassError;
use crate::node::{TemplateNode, TemplateNodeView};
use crate::scope::owner;
use crate::span::{ordered, resolved_tag, resolve_tag};
use crate::tree::JsxElement;
use crate::wire::{DecodedView, node_json};

verus! {

/// The template node of an element that is visited while the given scopes
/// are open: the element's file, the spans of its tags, and the innermost
/// scope as its component. A tag whose span cannot be resolved is an error.
pub open spec fn template_node(element: JsxElement, scopes: Seq<Seq<char>>) -> Result<
    TemplateNodeView,
    PassError,
> {
    match resolved_tag(element.opening@) {
        Err(e) => Err(e),
        Ok(start_tag) => match element.closing {
            None => Ok(
                TemplateNodeView { path: element.path@, start_tag, end_tag: None, component: owner(scopes) },
            ),
            Some(lines) => match resolved_tag(lines@) {
                Err(e) => Err(e),
                Ok(end_tag) => Ok(
                    TemplateNodeView {
                        path: element.path@,
                        start_tag,
                        end_tag: Some(end_tag),
                        component: owner(scopes),
                    },
                ),
            },
        },
    }
}

/// The tags of the element have ordered spans.
pub open spec fn ordered_spans(element: JsxElement) -> bool {
    ordered(element.opening@) && (element.closing matches Some(lines) ==> ordered(lines@))
}

/// Builds the template node of an element. `component_stack` holds the names
/// of the open scopes, the innermost last. The node of an element with
/// ordered spans is well formed.
pub fn build_template_node(element: &JsxElement, component_stack: &Vec<String>) -> (node: Result<
    TemplateNode,
    PassError,
>)
    ensures
        match template_node(*element, component_stack.deep_view()) {
            Ok(expected) => node matches Ok(built) && built@ == expected,
            Err(e) => node == Err::<TemplateNode, PassError>(e),
        },
        node matches Ok(built) ==> ordered_spans(*element) ==> built@.wf(),
{
    let start_tag = match resolve_tag(&element.opening) {
        Ok(tag) => tag,
        Err(e) => { return Err(e); },
    };
    let end_tag = match &element.closing {
        Some(lines) => match resolve_tag(lines) {
            Ok(tag) => Some(tag),
            Err(e) => { return Err(e); },
        },
        None => None,
    };
    let component = if component_stack.len() > 0 {
        Some(component_stack[component_stack.len() - 1].clone())
    } else {
        None
    };
    Ok(TemplateNode { path: element.path.clone(), start_tag, end_tag, component })
}

/// The payload that identifies an element by itself: its template node,
/// encoded. Decoding the payload gives that node back.
pub fn get_template_node(element: &JsxElement, component_stack: &Vec<String>) -> (payload: Result<
    String,
    PassError,
>)
    ensures
        match template_node(*element, component_stack.deep_view()) {
            Ok(node) => match compressed(node_json(node)) {
                Ok(text) => payload matches Ok(p) && p@ == text && decoded(p@) == Ok::<
                    DecodedView,
                    PassError,
                >(DecodedView::Node(node)),
                Err(e) => payload == Err::<String, PassError>(e),
            },
            Err(e) => payload == Err::<String, PassError>(e),
        },
        payload matches Ok(p) ==> forall|i: int| 0 <= i < p@.len() ==> is_base64_char(#[trigger] p@[i]),
{
    match build_template_node(element, component_stack) {
        Ok(node) => encode_node(&node),
        Err(e) => Err(e),
    }
}

} // verus!
