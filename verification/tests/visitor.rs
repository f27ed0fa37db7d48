use onlook::compress::decode;
use onlook::config::{Config, Options};
use onlook::error::PassError;
use onlook::node::{TemplateNode, TemplateTag, TemplateTagPosition};
use onlook::scope::{Binding, Declaration};
use onlook::span::LineRange;
use onlook::tag::TagName;
use onlook::template::{build_template_node, get_template_node};
use onlook::tree::{JsxAttr, JsxElement, Syntax, SyntaxKind};
use onlook::pass::ATTRIBUTE_NAME;
use onlook::visitor::{instrument, preprocess, TransformVisitor};
use onlook::wire::Decoded;

const PATH: &str = "/src/App.jsx";

fn line(line_index: usize, start_col: usize, end_col: usize) -> Vec<LineRange> {
    vec![LineRange { line_index, start_col, end_col }]
}

fn element(name: &str, opening: Vec<LineRange>, closing: Option<Vec<LineRange>>) -> JsxElement {
    JsxElement {
        name: TagName::Ident(name.to_string()),
        path: PATH.to_string(),
        opening,
        closing,
        attrs: Vec::new(),
    }
}

fn tree(kind: SyntaxKind, children: Vec<Syntax>) -> Syntax {
    Syntax { kind, children }
}

fn function(name: &str, children: Vec<Syntax>) -> Syntax {
    tree(SyntaxKind::Declaration(Declaration::Function(name.to_string())), children)
}

fn tag(line: usize, start: usize, end: usize) -> TemplateTag {
    TemplateTag {
        start: TemplateTagPosition { line, column: start },
        end: TemplateTagPosition { line, column: end },
    }
}

fn node(start_tag: TemplateTag, end_tag: Option<TemplateTag>, component: Option<&str>) -> TemplateNode {
    TemplateNode { path: PATH.to_string(), start_tag, end_tag, component: component.map(str::to_string) }
}

fn element_of(tree: &Syntax) -> &JsxElement {
    match &tree.kind {
        SyntaxKind::Element(element) => element,
        _ => panic!("not an element"),
    }
}

fn payload_of(tree: &Syntax) -> Vec<TemplateNode> {
    let attrs = &element_of(tree).attrs;
    assert_eq!(attrs.len(), 1);
    assert_eq!(attrs[0].name, ATTRIBUTE_NAME);
    match decode(&attrs[0].value) {
        Ok(Decoded::Sequence(nodes)) => nodes,
        other => panic!("not a sequence: {:?}", other),
    }
}

// function Foo() { return <div><span>hi</span></div>; }
fn foo() -> Syntax {
    let span = tree(SyntaxKind::Element(element("span", line(0, 29, 35), Some(line(0, 37, 44)))), vec![]);
    let div = tree(SyntaxKind::Element(element("div", line(0, 24, 29), Some(line(0, 44, 50)))), vec![span]);
    function("Foo", vec![tree(SyntaxKind::Other, vec![div])])
}

#[test]
fn host_elements_in_a_function_are_each_stamped() {
    let stamped = instrument(vec![foo()], Config::All(true)).unwrap();
    let div = &stamped[0].children[0].children[0];
    let span = &div.children[0];
    let on_div = payload_of(div);
    let on_span = payload_of(span);
    assert_eq!(on_div, vec![node(tag(1, 25, 30), Some(tag(1, 45, 51)), Some("Foo"))]);
    assert_eq!(on_span, vec![node(tag(1, 30, 36), Some(tag(1, 38, 45)), Some("Foo"))]);
    assert_ne!(element_of(div).attrs[0].value, element_of(span).attrs[0].value);
    assert_ne!(on_div[0].start_tag, on_span[0].start_tag);
    assert_ne!(on_div[0].end_tag, on_span[0].end_tag);
}

// <Card><Title><h1>X</h1></Title></Card>
fn card() -> Syntax {
    let h1 = tree(SyntaxKind::Element(element("h1", line(2, 4, 8), Some(line(2, 9, 14)))), vec![]);
    let title = tree(SyntaxKind::Element(element("Title", line(1, 2, 9), Some(line(3, 2, 10)))), vec![h1]);
    tree(SyntaxKind::Element(element("Card", line(0, 0, 6), Some(line(4, 0, 7)))), vec![title])
}

#[test]
fn components_are_gathered_and_flushed_at_the_host_element() {
    let stamped = instrument(vec![card()], Config::All(true)).unwrap();
    let card = &stamped[0];
    let title = &card.children[0];
    let h1 = &title.children[0];
    assert!(element_of(card).attrs.is_empty());
    assert!(element_of(title).attrs.is_empty());
    assert_eq!(
        payload_of(h1),
        vec![
            node(tag(1, 1, 7), Some(tag(5, 1, 8)), None),
            node(TemplateTag {
                start: TemplateTagPosition { line: 2, column: 3 },
                end: TemplateTagPosition { line: 2, column: 10 },
            }, Some(tag(4, 3, 11)), None),
            node(tag(3, 5, 9), Some(tag(3, 10, 15)), None),
        ]
    );
}

#[test]
fn components_wait_for_a_host_element_in_a_later_declaration() {
    // function App() { return <Card><Title>X</Title></Card>; }
    // function Title() { return <h1>X</h1>; }
    let title = tree(SyntaxKind::Element(element("Title", line(0, 30, 37), Some(line(0, 38, 46)))), vec![]);
    let card = tree(SyntaxKind::Element(element("Card", line(0, 24, 30), Some(line(0, 46, 53)))), vec![title]);
    let h1 = tree(SyntaxKind::Element(element("h1", line(1, 26, 30), Some(line(1, 31, 36)))), vec![]);
    let program = vec![function("App", vec![card]), function("Title", vec![h1])];
    let stamped = instrument(program, Config::All(true)).unwrap();
    let card = &stamped[0].children[0];
    assert!(element_of(card).attrs.is_empty());
    assert!(element_of(&card.children[0]).attrs.is_empty());
    let gathered = payload_of(&stamped[1].children[0]);
    assert_eq!(gathered.len(), 3);
    assert_eq!(gathered[0], node(tag(1, 25, 31), Some(tag(1, 47, 54)), Some("App")));
    assert_eq!(gathered[1], node(tag(1, 31, 38), Some(tag(1, 39, 47)), Some("App")));
    assert_eq!(gathered[2], node(tag(2, 27, 31), Some(tag(2, 32, 37)), Some("Title")));
}

#[test]
fn self_closing_element_has_no_end_tag() {
    let img = element("img", line(6, 2, 8), None);
    let stamped = instrument(vec![tree(SyntaxKind::Element(element("img", line(6, 2, 8), None)), vec![])], Config::All(true)).unwrap();
    let nodes = payload_of(&stamped[0]);
    assert_eq!(nodes, vec![node(tag(7, 3, 9), None, None)]);
    assert_eq!(nodes[0].end_tag, None);
    let alone = get_template_node(&img, &Vec::new()).unwrap();
    assert_eq!(decode(&alone), Ok(Decoded::Node(node(tag(7, 3, 9), None, None))));
}

#[test]
fn flushing_clears_what_was_gathered() {
    // <Card><a/><b/></Card>
    let a = tree(SyntaxKind::Element(element("a", line(1, 0, 4), None)), vec![]);
    let b = tree(SyntaxKind::Element(element("b", line(2, 0, 4), None)), vec![]);
    let card = tree(SyntaxKind::Element(element("Card", line(0, 0, 6), Some(line(3, 0, 7)))), vec![a, b]);
    let stamped = instrument(vec![card], Config::All(true)).unwrap();
    assert_eq!(payload_of(&stamped[0].children[0]).len(), 2);
    assert_eq!(payload_of(&stamped[0].children[1]), vec![node(tag(3, 1, 5), None, None)]);
}

#[test]
fn one_attribute_for_each_host_element_and_none_for_components() {
    let program = vec![foo(), card()];
    let stamped = instrument(program, Config::All(true)).unwrap();
    fn count(trees: &[Syntax], hosts: &mut usize, attrs: &mut usize) {
        for tree in trees {
            if let SyntaxKind::Element(element) = &tree.kind {
                let host = !matches!(&element.name, TagName::Ident(name) if name.starts_with(char::is_uppercase));
                if host {
                    *hosts += 1;
                    assert_eq!(element.attrs.len(), 1);
                } else {
                    assert!(element.attrs.is_empty());
                }
                *attrs += element.attrs.len();
            }
            count(&tree.children, hosts, attrs);
        }
    }
    let (mut hosts, mut attrs) = (0, 0);
    count(&stamped, &mut hosts, &mut attrs);
    assert_eq!(hosts, 3);
    assert_eq!(attrs, 3);
}

#[test]
fn existing_attributes_are_kept_before_the_new_one() {
    let mut img = element("img", line(0, 0, 14), None);
    img.attrs.push(JsxAttr { name: "alt".to_string(), value: "x".to_string() });
    let stamped = instrument(vec![tree(SyntaxKind::Element(img), vec![])], Config::All(true)).unwrap();
    let attrs = &element_of(&stamped[0]).attrs;
    assert_eq!(attrs.len(), 2);
    assert_eq!(attrs[0], JsxAttr { name: "alt".to_string(), value: "x".to_string() });
    assert_eq!(attrs[1].name, "data-onlook-id");
}

#[test]
fn the_pass_is_deterministic() {
    let first = instrument(vec![foo(), card()], Config::All(true)).unwrap();
    let second = instrument(vec![foo(), card()], Config::All(true)).unwrap();
    assert_eq!(first, second);
}

#[test]
fn a_disabled_pass_changes_nothing() {
    let stamped = instrument(vec![foo(), card()], Config::All(false)).unwrap();
    assert_eq!(stamped, vec![foo(), card()]);
    let mut visitor = preprocess(Config::All(false));
    assert!(!visitor.enabled());
    let mut img = element("img", Vec::new(), None);
    assert_eq!(visitor.visit_mut_jsx_element(&mut img), Ok(()));
    assert!(img.attrs.is_empty());
    assert_eq!(visitor.pending(), 0);
}

#[test]
fn options_switch_the_pass_on() {
    let config = Config::WithOptions(Options { project_root: "/src".to_string() });
    assert_eq!(config.project_root(), Some("/src"));
    let stamped = instrument(vec![foo()], config).unwrap();
    assert_eq!(payload_of(&stamped[0].children[0].children[0]).len(), 1);
}

#[test]
fn scopes_are_balanced_after_a_walk() {
    let visitor = TransformVisitor::new(Config::All(true));
    let program = vec![foo(), card(), function("Bar", vec![function("Baz", vec![])])];
    assert_eq!(visitor.depth(), 0);
    let (visitor, _) = visitor.run(program).ok().unwrap();
    assert_eq!(visitor.depth(), 0);
    assert_eq!(visitor.pending(), 0);
}

#[test]
fn the_innermost_declaration_owns_an_element() {
    // class Outer { render() { const Inner = () => <p/>; return <b/>; } }
    let p = tree(SyntaxKind::Element(element("p", line(0, 40, 44), None)), vec![]);
    let inner = tree(
        SyntaxKind::Declaration(Declaration::Variable(vec![Binding::Ident("Inner".to_string())])),
        vec![p],
    );
    let b = tree(SyntaxKind::Element(element("b", line(0, 53, 57), None)), vec![]);
    let outer = tree(SyntaxKind::Declaration(Declaration::Class("Outer".to_string())), vec![inner, b]);
    let stamped = instrument(vec![outer], Config::All(true)).unwrap();
    assert_eq!(payload_of(&stamped[0].children[0].children[0])[0].component.as_deref(), Some("Inner"));
    assert_eq!(payload_of(&stamped[0].children[1])[0].component.as_deref(), Some("Outer"));
}

#[test]
fn declarations_without_a_name_open_no_scope() {
    let mut visitor = preprocess(Config::All(true));
    assert!(!visitor.enter_declaration(&Declaration::Variable(vec![Binding::Pattern, Binding::Ident("x".to_string())])));
    assert!(!visitor.enter_declaration(&Declaration::Variable(Vec::new())));
    assert!(!visitor.enter_declaration(&Declaration::DefaultFunction(None)));
    assert_eq!(visitor.depth(), 0);
    assert!(visitor.enter_declaration(&Declaration::DefaultFunction(Some("Page".to_string()))));
    assert!(visitor.enter_declaration(&Declaration::Variable(vec![Binding::Ident("x".to_string()), Binding::Pattern])));
    assert_eq!(visitor.depth(), 2);
    visitor.leave_scope();
    visitor.leave_scope();
    visitor.leave_scope();
    assert_eq!(visitor.depth(), 0);
    assert_eq!(Declaration::Function("f".to_string()).name(), Some("f".to_string()));
    assert_eq!(Declaration::Class("C".to_string()).name(), Some("C".to_string()));
    assert_eq!(Declaration::DefaultFunction(None).name(), None);
}

#[test]
fn an_unresolvable_span_stops_the_pass() {
    let broken = tree(SyntaxKind::Element(element("div", Vec::new(), None)), vec![]);
    assert_eq!(instrument(vec![foo(), broken], Config::All(true)), Err(PassError::UnresolvableSpan));
    let unclosed = element("div", line(0, 0, 5), Some(Vec::new()));
    assert_eq!(build_template_node(&unclosed, &Vec::new()), Err(PassError::UnresolvableSpan));
    assert_eq!(get_template_node(&unclosed, &Vec::new()), Err(PassError::UnresolvableSpan));
}

#[test]
fn a_template_node_names_the_innermost_scope() {
    let div = element("div", vec![
        LineRange { line_index: 4, start_col: 8, end_col: 12 },
        LineRange { line_index: 5, start_col: 0, end_col: 20 },
        LineRange { line_index: 6, start_col: 0, end_col: 9 },
    ], Some(line(9, 8, 14)));
    let stack = vec!["App".to_string(), "Row".to_string()];
    let built = build_template_node(&div, &stack).unwrap();
    assert_eq!(built, TemplateNode {
        path: PATH.to_string(),
        start_tag: TemplateTag {
            start: TemplateTagPosition { line: 5, column: 9 },
            end: TemplateTagPosition { line: 7, column: 10 },
        },
        end_tag: Some(tag(10, 9, 15)),
        component: Some("Row".to_string()),
    });
    assert_eq!(decode(&get_template_node(&div, &stack).unwrap()), Ok(Decoded::Node(built)));
}

#[test]
fn a_failed_step_changes_nothing() {
    let mut visitor = preprocess(Config::All(true));
    let mut card = element("Card", line(0, 0, 6), None);
    assert_eq!(visitor.visit_mut_jsx_element(&mut card), Ok(()));
    assert_eq!(visitor.pending(), 1);
    let mut broken = element("div", line(1, 0, 5), Some(Vec::new()));
    assert_eq!(visitor.visit_mut_jsx_element(&mut broken), Err(PassError::UnresolvableSpan));
    assert_eq!(visitor.pending(), 1);
    assert!(broken.attrs.is_empty());
    assert_eq!(broken, element("div", line(1, 0, 5), Some(Vec::new())));
}

#[test]
fn steps_taken_by_hand_stamp_as_the_walk_does() {
    let stamped = instrument(vec![foo()], Config::All(true)).unwrap();
    let mut visitor = preprocess(Config::All(true));
    assert!(visitor.enter_declaration(&Declaration::Function("Foo".to_string())));
    assert_eq!(visitor.depth(), 1);
    let mut div = element("div", line(0, 24, 29), Some(line(0, 44, 50)));
    let mut span = element("span", line(0, 29, 35), Some(line(0, 37, 44)));
    assert_eq!(visitor.visit_mut_jsx_element(&mut div), Ok(()));
    assert_eq!(visitor.visit_mut_jsx_element(&mut span), Ok(()));
    visitor.leave_scope();
    assert_eq!(visitor.depth(), 0);
    let walked_div = &stamped[0].children[0].children[0];
    assert_eq!(&div, element_of(walked_div));
    assert_eq!(&span, element_of(&walked_div.children[0]));
}
