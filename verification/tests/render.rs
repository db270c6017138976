use figma_api::document::decode_str;
use figma_api::file::{BaseNode, Color, File, Node};
use figma_api::raw::Number;
use figma_api::render::{render, render_node, visit, JavascriptWriter, RenderError};

fn base(id: &str, name: &str) -> BaseNode {
    BaseNode { id: id.to_string(), name: name.to_string(), visible: false, plugin_data: None }
}

fn frame(id: &str, name: &str, children: Vec<Node>) -> Node {
    Node::Frame { children, node: base(id, name) }
}

fn leaf(id: &str, name: &str) -> Node {
    Node::Vector { node: base(id, name) }
}

fn canvas(id: &str, name: &str, children: Vec<Node>) -> Node {
    let zero = Number::PosInt(0);
    Node::Canvas {
        children,
        background_color: Color { r: zero, g: zero, b: zero, a: zero },
        prototype_start_node_id: None,
        export_settings: Vec::new(),
        node: base(id, name),
    }
}

fn file_with(document: Node) -> File {
    File {
        name: "f".to_string(),
        role: "owner".to_string(),
        last_modified: "2020-01-01T00:00:00Z".to_string(),
        thumbnail_url: "".to_string(),
        version: "1".to_string(),
        document,
        components: Vec::new(),
        schema_version: 0,
    }
}

fn rendered(file: &File) -> (Result<usize, RenderError>, String) {
    let mut writer = JavascriptWriter::new(Vec::new());
    let r = render(file, &mut writer);
    (r, String::from_utf8(writer.into_inner()).unwrap())
}

const PAGE: &str = r#"{
  "name": "Demo", "role": "owner", "lastModified": "2020-05-01T10:00:00Z",
  "thumbnailUrl": "https://example.org/t.png", "version": "42", "schemaVersion": 0,
  "components": {},
  "document": {"type":"DOCUMENT","id":"0","name":"root","children":[
    {"type":"CANVAS","id":"1","name":"Page 1",
     "backgroundColor":{"r":0.5,"g":0.5,"b":0.5,"a":1},"exportSettings":[],
     "children":[{"type":"FRAME","id":"2","name":"Frame A","children":[]}]}
  ]}
}"#;

#[test]
fn a_page_with_one_frame_renders_two_lines() {
    let file = decode_str(PAGE).unwrap();
    let (r, text) = rendered(&file);
    assert_eq!(text, "Page 1\nFrame A\n");
    assert_eq!(r, Ok(15));
}

#[test]
fn the_same_tree_built_by_hand_renders_the_same() {
    let doc = Node::Document {
        children: vec![canvas("1", "Page 1", vec![frame("2", "Frame A", vec![])])],
        node: base("0", "root"),
    };
    let (r, text) = rendered(&file_with(doc));
    assert_eq!(text, "Page 1\nFrame A\n");
    assert_eq!(r, Ok(15));
}

#[test]
fn a_frame_as_root_is_refused_and_nothing_is_written() {
    let file = file_with(frame("0", "not a document", vec![leaf("1", "child")]));
    let mut writer = JavascriptWriter::new(vec![7u8, 8u8]);
    let r = render(&file, &mut writer);
    assert_eq!(r, Err(RenderError::InvalidRoot));
    assert_eq!(writer.into_inner(), vec![7u8, 8u8]);
}

#[test]
fn an_empty_name_still_gets_its_line() {
    let doc = Node::Document {
        children: vec![leaf("1", "a"), leaf("2", ""), leaf("3", "b")],
        node: base("0", "root"),
    };
    let (r, text) = rendered(&file_with(doc));
    assert_eq!(text, "a\n\nb\n");
    assert_eq!(r, Ok(5));
}

#[test]
fn an_empty_document_renders_nothing() {
    let doc = Node::Document { children: vec![], node: base("0", "root") };
    let (r, text) = rendered(&file_with(doc));
    assert_eq!(text, "");
    assert_eq!(r, Ok(0));
}

#[test]
fn parents_come_before_children_and_siblings_in_order() {
    let doc = Node::Document {
        children: vec![
            canvas(
                "1",
                "First",
                vec![
                    frame("2", "A", vec![leaf("3", "A1"), frame("4", "A2", vec![leaf("5", "A2x")])]),
                    leaf("6", "B"),
                ],
            ),
            canvas("7", "Second", vec![leaf("8", "C")]),
        ],
        node: base("0", "root"),
    };
    let (r, text) = rendered(&file_with(doc));
    assert_eq!(text, "First\nA\nA1\nA2\nA2x\nB\nSecond\nC\n");
    assert_eq!(r, Ok(text.len()));
}

#[test]
fn one_line_for_each_node_that_is_not_a_document() {
    let doc = Node::Document {
        children: vec![
            frame("1", "x", vec![leaf("2", "y"), leaf("3", "z")]),
            Node::Document { children: vec![leaf("4", "inner")], node: base("9", "nested") },
            leaf("5", "w"),
        ],
        node: base("0", "root"),
    };
    let file = file_with(doc);
    let visited = visit(&file.document);
    assert_eq!(visited.len(), 5);
    let (_, text) = rendered(&file);
    assert_eq!(text.lines().count(), 5);
}

#[test]
fn a_nested_document_is_passed_through() {
    let doc = Node::Document {
        children: vec![
            leaf("1", "before"),
            Node::Document { children: vec![leaf("2", "inside")], node: base("9", "nested") },
            leaf("3", "after"),
        ],
        node: base("0", "root"),
    };
    let (r, text) = rendered(&file_with(doc));
    assert_eq!(text, "before\ninside\nafter\n");
    assert_eq!(r, Ok(20));
}

#[test]
fn names_are_written_as_they_are() {
    let doc = Node::Document {
        children: vec![leaf("1", "  spaced <tag> \"q\" "), leaf("2", "Überschrift €")],
        node: base("0", "root"),
    };
    let (r, text) = rendered(&file_with(doc));
    assert_eq!(text, "  spaced <tag> \"q\" \nÜberschrift €\n");
    assert_eq!(r, Ok(text.len()));
}

#[test]
fn render_node_writes_the_node_and_what_is_under_it() {
    let node = frame("1", "top", vec![leaf("2", "kid")]);
    let mut writer = JavascriptWriter::new(b"// ".to_vec());
    let bytes = render_node(&node, &mut writer);
    assert_eq!(bytes, 8);
    assert_eq!(writer.into_inner(), b"// top\nkid\n".to_vec());
}

#[test]
fn visit_lists_the_nodes_in_rendering_order() {
    let node = frame("1", "top", vec![frame("2", "mid", vec![leaf("3", "low")]), leaf("4", "side")]);
    let names: Vec<&str> = visit(&node).iter().map(|n| n.base().name.as_str()).collect();
    assert_eq!(names, vec!["top", "mid", "low", "side"]);
}

#[test]
fn a_very_deep_tree_is_walked_without_deep_calls() {
    let mut node = leaf("0", "bottom");
    for _ in 0..200_000 {
        node = frame("f", "f", vec![node]);
    }
    let mut writer = JavascriptWriter::new(Vec::new());
    let bytes = render_node(&node, &mut writer);
    assert_eq!(bytes, 2 * 200_000 + 7);
    let out = writer.into_inner();
    assert!(out.ends_with(b"f\nbottom\n"));
    std::mem::forget(node);
}

#[test]
fn the_writer_counts_what_it_appends() {
    let mut writer = JavascriptWriter::new(Vec::new());
    assert_eq!(writer.write("héllo"), 6);
    assert_eq!(writer.write(""), 0);
    assert_eq!(writer.write_line(), 1);
    assert_eq!(writer.raw_write(&[1u8, 2u8, 3u8]), 3);
    assert_eq!(writer.into_inner(), vec![104u8, 195, 169, 108, 108, 111, 10, 1, 2, 3]);
}
