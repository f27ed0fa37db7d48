use onlook::tag::TagName;

fn ident(name: &str) -> TagName {
    TagName::Ident(name.to_string())
}

#[test]
fn capitalized_identifiers_are_components() {
    assert!(ident("Card").custom());
    assert!(ident("A").custom());
    assert!(ident("Zed").custom());
    assert!(!ident("Card").host());
}

#[test]
fn other_identifiers_are_host_elements() {
    assert!(ident("div").host());
    assert!(!ident("div").custom());
    assert!(ident("h1").host());
    assert!(ident("_Private").host());
    assert!(ident("$x").host());
    assert!(ident("aB").host());
}

#[test]
fn the_empty_name_is_a_host_element() {
    assert!(ident("").host());
    assert!(!ident("").custom());
}

#[test]
fn qualified_names_are_components() {
    assert!(TagName::Member("Menu.Item".to_string()).custom());
    assert!(TagName::Member("menu.item".to_string()).custom());
}

#[test]
fn namespaced_names_are_host_elements() {
    assert!(TagName::Namespaced("svg:rect".to_string()).host());
    assert!(TagName::Namespaced("Svg:Rect".to_string()).host());
}
