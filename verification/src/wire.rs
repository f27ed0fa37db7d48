//! The JSON shape of template nodes.
//!
//! A position is an object with `line` and `column`, a tag an object with
//! `start` and `end`, a node an object with `path`, `startTag`, `endTag` and
//! `component`, the last two null where they are absent. A sequence of nodes
//! is an array of such objects.
use vstd::prelude::*;
use serde_json::Value;
use crate::error::{PassError, Stage};
use crate::json::{Json, json_of, object_of, entries_of, items_of};
use crate::json::{json_null, json_string, json_number, json_array, json_object};
use crate::json::{json_member, json_as_str, json_as_u64, json_as_array, json_is_null};
use crate::node::{TemplateNode, TemplateNodeView, TemplateTag, TemplateTagPosition};

verus! {

/// What a payload holds: one node, or the nodes gathered up to a flush.
#[derive(Debug, PartialEq, Eq)]
pub enum Decoded {
    Node(TemplateNode),
    Sequence(Vec<TemplateNode>),
}

/// A [`Decoded`] as a mathematical value.
pub ghost enum DecodedView {
    Node(TemplateNodeView),
    Sequence(Seq<TemplateNodeView>),
}

impl View for Decoded {
    type V = DecodedView;

    open spec fn view(&self) -> DecodedView {
        match self {
            Decoded::Node(node) => DecodedView::Node(node@),
            Decoded::Sequence(nodes) => DecodedView::Sequence(nodes.deep_view()),
        }
    }
}

/// The JSON value of a position.
pub open spec fn position_json(position: TemplateTagPosition) -> Json {
    Json::Object(
        Map::empty().insert("line"@, Json::Integer(position.line as int)).insert(
            "column"@,
            Json::Integer(position.column as int),
        ),
    )
}

/// The JSON value of a tag.
pub open spec fn tag_json(tag: TemplateTag) -> Json {
    Json::Object(
        Map::empty().insert("start"@, position_json(tag.start)).insert("end"@, position_json(tag.end)),
    )
}

/// The JSON value of a tag that may be absent.
pub open spec fn optional_tag_json(tag: Option<TemplateTag>) -> Json {
    match tag {
        Some(tag) => tag_json(tag),
        None => Json::Null,
    }
}

/// The JSON value of a name that may be absent.
pub open spec fn optional_text_json(text: Option<Seq<char>>) -> Json {
    match text {
        Some(text) => Json::Text(text),
        None => Json::Null,
    }
}

/// The JSON value of a node.
pub open spec fn node_json(node: TemplateNodeView) -> Json {
    Json::Object(
        Map::empty().insert("path"@, Json::Text(node.path)).insert("startTag"@, tag_json(node.start_tag)).insert(
            "endTag"@,
            optional_tag_json(node.end_tag),
        ).insert("component"@, optional_text_json(node.component)),
    )
}

/// The JSON value of a sequence of nodes.
pub open spec fn nodes_json(nodes: Seq<TemplateNodeView>) -> Json {
    Json::List(nodes.map_values(|node: TemplateNodeView| node_json(node)))
}

/// The integer under `key`, where it fits a `usize`.
pub open spec fn json_coordinate(json: Json, key: Seq<char>) -> Option<usize> {
    match json.member(key) {
        Some(Json::Integer(n)) if 0 <= n <= usize::MAX && n <= u64::MAX => Some(n as usize),
        _ => None,
    }
}

/// The position that a JSON value denotes, if it denotes one.
pub open spec fn json_position(json: Json) -> Option<TemplateTagPosition> {
    match (json_coordinate(json, "line"@), json_coordinate(json, "column"@)) {
        (Some(line), Some(column)) => Some(TemplateTagPosition { line, column }),
        _ => None,
    }
}

/// The position under `key`.
pub open spec fn json_position_at(json: Json, key: Seq<char>) -> Option<TemplateTagPosition> {
    match json.member(key) {
        Some(position) => json_position(position),
        None => None,
    }
}

/// The tag that a JSON value denotes, if it denotes one.
pub open spec fn json_tag(json: Json) -> Option<TemplateTag> {
    match (json_position_at(json, "start"@), json_position_at(json, "end"@)) {
        (Some(start), Some(end)) => Some(TemplateTag { start, end }),
        _ => None,
    }
}

/// The node that a JSON value denotes, if it denotes one. The path and the
/// opening tag must be there. The closing tag and the component may be
/// missing or null. Keys that a node does not have are passed over.
pub open spec fn json_node(json: Json) -> Option<TemplateNodeView> {
    let path = json.member("path"@);
    let start_tag = match json.member("startTag"@) {
        Some(tag) => json_tag(tag),
        None => None,
    };
    let end_tag = match json.member("endTag"@) {
        None | Some(Json::Null) => Some(None),
        Some(tag) => match json_tag(tag) {
            Some(tag) => Some(Some(tag)),
            None => None,
        },
    };
    let component = match json.member("component"@) {
        None | Some(Json::Null) => Some(None),
        Some(Json::Text(name)) => Some(Some(name)),
        Some(_) => None,
    };
    match (path, start_tag, end_tag, component) {
        (Some(Json::Text(path)), Some(start_tag), Some(end_tag), Some(component)) => Some(
            TemplateNodeView { path, start_tag, end_tag, component },
        ),
        _ => None,
    }
}

/// The nodes that the items of an array denote, if each denotes one.
pub open spec fn json_nodes(items: Seq<Json>) -> Option<Seq<TemplateNodeView>> {
    if forall|i: int| 0 <= i < items.len() ==> json_node(#[trigger] items[i]) is Some {
        Some(Seq::new(items.len(), |i: int| json_node(items[i])->0))
    } else {
        None
    }
}

/// What a JSON value denotes: an array is a sequence of nodes, anything else
/// is read as one node.
pub open spec fn json_decoded(json: Json) -> Option<DecodedView> {
    match json {
        Json::List(items) => match json_nodes(items) {
            Some(nodes) => Some(DecodedView::Sequence(nodes)),
            None => None,
        },
        _ => match json_node(json) {
            Some(node) => Some(DecodedView::Node(node)),
            None => None,
        },
    }
}

/// The keys of one object differ from each other.
proof fn lemma_keys_differ()
    ensures
        "line"@ != "column"@,
        "start"@ != "end"@,
        "path"@ != "startTag"@,
        "path"@ != "endTag"@,
        "path"@ != "component"@,
        "startTag"@ != "endTag"@,
        "startTag"@ != "component"@,
        "endTag"@ != "component"@,
{
    reveal_strlit("line");
    reveal_strlit("column");
    reveal_strlit("start");
    reveal_strlit("end");
    reveal_strlit("path");
    reveal_strlit("startTag");
    reveal_strlit("endTag");
    reveal_strlit("component");
    assert("line"@.len() == 4 && "column"@.len() == 6);
    assert("start"@.len() == 5 && "end"@.len() == 3);
    assert("path"@.len() == 4 && "startTag"@.len() == 8 && "endTag"@.len() == 6 && "component"@.len() == 9);
}

/// A position is read back from its JSON value.
pub proof fn lemma_position_round_trip(position: TemplateTagPosition)
    ensures
        json_position(position_json(position)) == Some(position),
        position_json(position).plain(1),
{
    lemma_keys_differ();
    let entries = position_json(position)->Object_0;
    assert forall|key: Seq<char>| entries.contains_key(key) implies (#[trigger] entries[key]).plain(0) by {
        assert(key == "line"@ || key == "column"@);
    }
}

/// A tag is read back from its JSON value.
pub proof fn lemma_tag_round_trip(tag: TemplateTag)
    ensures
        json_tag(tag_json(tag)) == Some(tag),
        tag_json(tag).plain(2),
        !(tag_json(tag) is Null),
{
    lemma_keys_differ();
    lemma_position_round_trip(tag.start);
    lemma_position_round_trip(tag.end);
    let entries = tag_json(tag)->Object_0;
    assert forall|key: Seq<char>| entries.contains_key(key) implies (#[trigger] entries[key]).plain(1) by {
        assert(key == "start"@ || key == "end"@);
    }
}

/// A node is read back from its JSON value.
pub proof fn lemma_node_round_trip(node: TemplateNodeView)
    ensures
        json_node(node_json(node)) == Some(node),
        json_decoded(node_json(node)) == Some(DecodedView::Node(node)),
        node_json(node).plain(3),
{
    lemma_keys_differ();
    lemma_tag_round_trip(node.start_tag);
    if let Some(tag) = node.end_tag {
        lemma_tag_round_trip(tag);
    }
    let entries = node_json(node)->Object_0;
    assert forall|key: Seq<char>| entries.contains_key(key) implies (#[trigger] entries[key]).plain(2) by {
        assert(key == "path"@ || key == "startTag"@ || key == "endTag"@ || key == "component"@);
    }
}

/// A sequence of nodes is read back from its JSON value.
pub proof fn lemma_nodes_round_trip(nodes: Seq<TemplateNodeView>)
    ensures
        json_decoded(nodes_json(nodes)) == Some(DecodedView::Sequence(nodes)),
        nodes_json(nodes).plain(4),
{
    let items = nodes.map_values(|node: TemplateNodeView| node_json(node));
    assert forall|i: int| 0 <= i < items.len() implies json_node(#[trigger] items[i]) == Some(nodes[i])
        && items[i].plain(3) by {
        lemma_node_round_trip(nodes[i]);
    }
    assert(json_nodes(items)->0 =~= nodes);
}

/// The value of a position.
fn position_to_json(position: TemplateTagPosition) -> (value: Value)
    ensures
        json_of(value) == position_json(position),
{
    let mut entries: Vec<(String, Value)> = Vec::new();
    entries.push(("line".to_owned(), json_number(position.line)));
    entries.push(("column".to_owned(), json_number(position.column)));
    proof {
        lemma_keys_differ();
        reveal_with_fuel(object_of, 3);
    }
    json_object(entries)
}

/// The value of a tag.
fn tag_to_json(tag: TemplateTag) -> (value: Value)
    ensures
        json_of(value) == tag_json(tag),
{
    let mut entries: Vec<(String, Value)> = Vec::new();
    entries.push(("start".to_owned(), position_to_json(tag.start)));
    entries.push(("end".to_owned(), position_to_json(tag.end)));
    proof {
        lemma_keys_differ();
        reveal_with_fuel(object_of, 3);
    }
    json_object(entries)
}

/// The value of a node: an object with the keys `path`, `startTag`, `endTag`
/// and `component`, where an absent closing tag or component is null.
pub fn node_to_json(node: &TemplateNode) -> (value: Value)
    ensures
        json_of(value) == node_json(node@),
{
    let end_tag = match node.end_tag {
        Some(tag) => tag_to_json(tag),
        None => json_null(),
    };
    let component = match &node.component {
        Some(name) => json_string(name.clone()),
        None => json_null(),
    };
    let mut entries: Vec<(String, Value)> = Vec::new();
    entries.push(("path".to_owned(), json_string(node.path.clone())));
    entries.push(("startTag".to_owned(), tag_to_json(node.start_tag)));
    entries.push(("endTag".to_owned(), end_tag));
    entries.push(("component".to_owned(), component));
    proof {
        lemma_keys_differ();
        reveal_with_fuel(object_of, 5);
    }
    json_object(entries)
}

/// The value of a sequence of nodes: the array of their values, in order.
pub fn nodes_to_json(nodes: &Vec<TemplateNode>) -> (value: Value)
    ensures
        json_of(value) == nodes_json(nodes.deep_view()),
{
    let mut items: Vec<Value> = Vec::new();
    let mut i: usize = 0;
    while i < nodes.len()
        invariant
            i <= nodes.len(),
            items@.len() == i,
            forall|k: int| 0 <= k < i ==> json_of(#[trigger] items@[k]) == node_json(nodes@[k]@),
        decreases nodes.len() - i,
    {
        items.push(node_to_json(&nodes[i]));
        i += 1;
    }
    proof {
        assert(items_of(items@) =~= nodes.deep_view().map_values(|node: TemplateNodeView| node_json(node)));
    }
    json_array(items)
}

/// The coordinate under `key`.
fn coordinate_from_json(value: &Value, key: &str) -> (coordinate: Option<usize>)
    ensures
        coordinate == json_coordinate(json_of(*value), key@),
{
    match json_member(value, key) {
        Some(member) => match json_as_u64(member) {
            Some(n) => if n <= usize::MAX as u64 {
                Some(n as usize)
            } else {
                None
            },
            None => None,
        },
        None => None,
    }
}

/// The position that a value denotes.
fn position_from_json(value: &Value) -> (position: Option<TemplateTagPosition>)
    ensures
        position == json_position(json_of(*value)),
{
    match (coordinate_from_json(value, "line"), coordinate_from_json(value, "column")) {
        (Some(line), Some(column)) => Some(TemplateTagPosition { line, column }),
        _ => None,
    }
}

/// The position under `key`.
fn position_at(value: &Value, key: &str) -> (position: Option<TemplateTagPosition>)
    ensures
        position == json_position_at(json_of(*value), key@),
{
    match json_member(value, key) {
        Some(member) => position_from_json(member),
        None => None,
    }
}

/// The tag that a value denotes.
fn tag_from_json(value: &Value) -> (tag: Option<TemplateTag>)
    ensures
        tag == json_tag(json_of(*value)),
{
    match (position_at(value, "start"), position_at(value, "end")) {
        (Some(start), Some(end)) => Some(TemplateTag { start, end }),
        _ => None,
    }
}

/// The node that a value denotes, or `None` where it denotes none.
pub fn node_from_json(value: &Value) -> (node: Option<TemplateNode>)
    ensures
        match node {
            Some(node) => json_node(json_of(*value)) == Some(node@),
            None => json_node(json_of(*value)) is None,
        },
{
    let path = match json_member(value, "path") {
        Some(member) => match json_as_str(member) {
            Some(text) => text.to_owned(),
            None => { return None; },
        },
        None => { return None; },
    };
    let start_tag = match json_member(value, "startTag") {
        Some(member) => match tag_from_json(member) {
            Some(tag) => tag,
            None => { return None; },
        },
        None => { return None; },
    };
    let end_tag = match json_member(value, "endTag") {
        Some(member) => if json_is_null(member) {
            None
        } else {
            match tag_from_json(member) {
                Some(tag) => Some(tag),
                None => { return None; },
            }
        },
        None => None,
    };
    let component = match json_member(value, "component") {
        Some(member) => if json_is_null(member) {
            None
        } else {
            match json_as_str(member) {
                Some(name) => Some(name.to_owned()),
                None => { return None; },
            }
        },
        None => None,
    };
    Some(TemplateNode { path, start_tag, end_tag, component })
}

/// What a value denotes: the nodes of an array, or the one node of any other
/// value. A value that denotes neither is a failure of the JSON stage.
pub fn decoded_from_json(value: &Value) -> (decoded: Result<Decoded, PassError>)
    ensures
        match json_decoded(json_of(*value)) {
            Some(denoted) => decoded matches Ok(found) && found@ == denoted,
            None => decoded == Err::<Decoded, PassError>(PassError::DecodingFailure(Stage::Json)),
        },
{
    match json_as_array(value) {
        Some(items) => {
            let mut nodes: Vec<TemplateNode> = Vec::new();
            let mut i: usize = 0;
            while i < items.len()
                invariant
                    i <= items.len(),
                    nodes@.len() == i,
                    json_of(*value) == Json::List(items_of(items@)),
                    forall|k: int| 0 <= k < i ==> json_node(json_of(#[trigger] items@[k])) == Some(nodes@[k]@),
                decreases items.len() - i,
            {
                match node_from_json(&items[i]) {
                    Some(node) => {
                        nodes.push(node);
                    },
                    None => {
                        proof {
                            assert(items_of(items@)[i as int] == json_of(items@[i as int]));
                        }
                        return Err(PassError::DecodingFailure(Stage::Json));
                    },
                }
                i += 1;
            }
            proof {
                let listed = items_of(items@);
                assert forall|k: int| 0 <= k < listed.len() implies json_node(#[trigger] listed[k]) is Some by {
                    assert(json_node(json_of(items@[k])) == Some(nodes@[k]@));
                }
                assert(json_nodes(listed)->0 =~= nodes.deep_view());
            }
            Ok(Decoded::Sequence(nodes))
        },
        None => match node_from_json(value) {
            Some(node) => Ok(Decoded::Node(node)),
            None => Err(PassError::DecodingFailure(Stage::Json)),
        },
    }
}

} // verus!
