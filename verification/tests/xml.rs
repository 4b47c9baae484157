use rustack::xml_tree::{parse, parse_tag_keys, unescape_xml, Node};

#[test]
fn test_parses_basic() {
    let xml = b"<Foo><Bar>hello</Bar></Foo>";
    let n = parse(xml).unwrap();
    assert_eq!(n.name, "Foo");
    assert_eq!(n.child_text("Bar"), "hello");
}

#[test]
fn test_parses_items() {
    let xml = b"<Foo><Items><Item>a</Item><Item>b</Item></Items></Foo>";
    let n = parse(xml).unwrap();
    let names: Vec<&str> = n.children_named("Items")[0]
        .children_named("Item")
        .iter()
        .map(|x| x.text.as_str())
        .collect();
    assert_eq!(names, vec!["a", "b"]);
}

#[test]
fn parse_empty_input_gives_default_node() {
    let n = parse(b"").unwrap();
    assert_eq!(n.name, "");
    assert!(n.children.is_empty());
}

#[test]
fn parse_reports_document_without_elements() {
    assert_eq!(parse(b"   ").unwrap_err(), "empty XML document");
}

#[test]
fn parse_reports_malformed_xml() {
    let err = parse(b"<a><b></a").unwrap_err();
    assert!(err.starts_with("xml parse error: "), "{err}");
}

#[test]
fn parse_unescapes_text_and_keeps_cdata() {
    let n = parse(b"<R><A>x &amp; y &#65;&#x42;</A><B><![CDATA[<raw>]]></B><E/></R>").unwrap();
    assert_eq!(n.child_text("A"), "x & y AB");
    assert_eq!(n.child_text("B"), "<raw>");
    assert_eq!(n.child("E").unwrap().text, "");
    assert!(n.child("Missing").is_none());
    assert_eq!(n.child_text("Missing"), "");
}

#[test]
fn node_numeric_and_flag_lookups() {
    let n = parse(b"<R><I>42</I><L>-9000000000</L><Bad>x</Bad><T>True</T><F>no</F></R>").unwrap();
    assert_eq!(n.child_i32("I"), 42);
    assert_eq!(n.child_i64("L"), -9_000_000_000);
    assert_eq!(n.child_i32("Bad"), 0);
    assert_eq!(n.child_i32("Missing"), 0);
    assert!(n.child_bool("T"));
    assert!(!n.child_bool("F"));
    assert!(!n.child_bool("Missing"));
}

#[test]
fn node_item_lists() {
    let xml = b"<R><Aliases><Quantity>2</Quantity><Items><CNAME>a.com</CNAME><CNAME>b.com</CNAME><X>c</X></Items></Aliases><Items><Id>1</Id><Id>2</Id></Items></R>";
    let n = parse(xml).unwrap();
    assert_eq!(n.string_items("Aliases", "CNAME"), vec!["a.com", "b.com"]);
    assert_eq!(n.items_named("Aliases", "X").len(), 1);
    assert!(n.string_items("Nope", "CNAME").is_empty());
    assert_eq!(n.direct_string_items("Id"), vec!["1", "2"]);
    assert_eq!(n.direct_items("Id").len(), 2);
}

#[test]
fn tag_keys_are_collected() {
    let n = parse(b"<TagKeys><Key>foo</Key><Other>x</Other><Key>bar</Key></TagKeys>").unwrap();
    assert_eq!(parse_tag_keys(&n), vec!["foo", "bar"]);
    let empty = Node::default();
    assert!(parse_tag_keys(&empty).is_empty());
}

#[test]
fn unescape_handles_entities() {
    assert_eq!(unescape_xml("&lt;a&gt; &quot;q&quot; &apos;s&apos;"), "<a> \"q\" 's'");
    assert_eq!(unescape_xml("&#x263A;"), "\u{263A}");
    assert_eq!(unescape_xml("&#xD800;"), "&#xD800;");
    assert_eq!(unescape_xml("&bogus; & tail"), "&bogus; & tail");
    assert_eq!(unescape_xml("no entities"), "no entities");
    assert_eq!(unescape_xml("&#zz;"), "&#zz;");
}
