use figma_api::document::{decode, decode_str, ReadError};
use figma_api::error::DecodeError;
use figma_api::file::{
    BaseNode, BlendMode, Color, ColorStop, Component, Constraint, ExportSetting, File,
    LayoutConstraint, LayoutGrid, LayoutGridPattern, LayoutAlign, LineHeightUnit, Node, NodeKind,
    Padding, Paint, Rectangle, ScaleMode, Size, Style, TextAutoResizeType, TextCase,
    TextHorizontalAlignment, TextVerticalAlignment, TypeStyle, Vector,
    HorizontalLayoutConstraint, VerticalLayoutConstraint,
};
use figma_api::json::parse;
use figma_api::raw::{Number, Raw};

fn raw(text: &str) -> Raw {
    parse(text).unwrap()
}

fn missing(field: &str, container: &str) -> DecodeError {
    DecodeError::MissingField { field: field.to_string(), container: container.to_string() }
}

fn mismatch(field: &str, expected: &str, found: Raw) -> DecodeError {
    DecodeError::TypeMismatch { field: field.to_string(), expected: expected.to_string(), found }
}

fn unknown(tag: &str, location: &str) -> DecodeError {
    DecodeError::UnknownVariant { tag: tag.to_string(), location: location.to_string() }
}

fn float(x: f64) -> Number {
    Number::Float(x.to_bits())
}

const STYLE: &str = r#"{"fontFamily":"Inter","fontWeight":400,"fontSize":12.5,
  "textAlignHorizontal":"LEFT","textAlignVertical":"TOP","letterSpacing":0,
  "lineHeightPx":14.0625,"lineHeightPercent":100,"lineHeightUnit":"INTRINSIC_%"}"#;

fn file_text(document: &str) -> String {
    format!(
        r#"{{"name":"Demo","role":"owner","lastModified":"2020-05-01T10:00:00Z",
        "thumbnailUrl":"https://example.org/t.png","version":"42","schemaVersion":3,
        "components":{{"1:2":{{"key":"k1","name":"Button","description":"A button"}}}},
        "document":{}}}"#,
        document
    )
}

#[test]
fn a_whole_file_decodes_field_by_field() {
    let text = file_text(
        r#"{"type":"DOCUMENT","id":"0:0","name":"Document","children":[
            {"type":"CANVAS","id":"0:1","name":"Page 1","visible":true,
             "backgroundColor":{"r":0.25,"g":0.5,"b":1,"a":1},
             "prototypeStartNodeId":null,
             "exportSettings":[{"suffix":"@2x","format":"PNG","constraint":{"type":"SCALE","value":2}}],
             "children":[]}]}"#,
    );
    let file = decode_str(&text).unwrap();
    let expected = File {
        name: "Demo".to_string(),
        role: "owner".to_string(),
        last_modified: "2020-05-01T10:00:00Z".to_string(),
        thumbnail_url: "https://example.org/t.png".to_string(),
        version: "42".to_string(),
        document: Node::Document {
            children: vec![Node::Canvas {
                children: vec![],
                background_color: Color {
                    r: float(0.25),
                    g: float(0.5),
                    b: Number::PosInt(1),
                    a: Number::PosInt(1),
                },
                prototype_start_node_id: None,
                export_settings: vec![ExportSetting {
                    suffix: "@2x".to_string(),
                    format: "PNG".to_string(),
                    constraint: Constraint::Scale { value: 2 },
                }],
                node: BaseNode {
                    id: "0:1".to_string(),
                    name: "Page 1".to_string(),
                    visible: true,
                    plugin_data: None,
                },
            }],
            node: BaseNode {
                id: "0:0".to_string(),
                name: "Document".to_string(),
                visible: false,
                plugin_data: None,
            },
        },
        components: vec![(
            "1:2".to_string(),
            Component {
                key: "k1".to_string(),
                name: "Button".to_string(),
                description: "A button".to_string(),
            },
        )],
        schema_version: 3,
    };
    assert_eq!(file, expected);
    assert_eq!(file.component("1:2").unwrap().name, "Button");
    assert!(file.component("1:3").is_none());
}

#[test]
fn decoding_twice_gives_equal_files() {
    let text = file_text(r#"{"type":"DOCUMENT","id":"0","name":"root","children":[
        {"type":"FRAME","id":"1","name":"A","children":[{"type":"STAR","id":"2","name":"s"}]}]}"#);
    let first = decode_str(&text).unwrap();
    let second = decode_str(&text).unwrap();
    assert_eq!(first, second);
    let tree = raw(&text);
    assert_eq!(decode(&tree), decode(&tree.duplicate()));
    let broken = raw(r#"{"name": 1}"#);
    assert_eq!(decode(&broken), decode(&broken));
}

#[test]
fn the_canvas_of_a_bare_page_lacks_required_fields() {
    let text = file_text(r#"{"type":"DOCUMENT","children":[{"type":"CANVAS","id":"1","name":"Page 1",
        "children":[{"type":"FRAME","id":"2","name":"Frame A","children":[]}]}],"id":"0","name":"root"}"#);
    assert_eq!(decode(&raw(&text)), Err(missing("backgroundColor", "Node")));
}

#[test]
fn a_node_without_visible_is_not_visible() {
    let n = Node::decode(&raw(r#"{"type":"LINE","id":"1","name":"l"}"#), "n").unwrap();
    assert_eq!(n.base().visible, false);
    let n = Node::decode(&raw(r#"{"type":"LINE","id":"1","name":"l","visible":true}"#), "n").unwrap();
    assert_eq!(n.base().visible, true);
}

#[test]
fn a_style_without_text_case_has_the_original_case() {
    let style = TypeStyle::decode(&raw(STYLE), "style").unwrap();
    assert_eq!(style.text_case, TextCase::Original);
    assert_eq!(style.text_auto_resize, TextAutoResizeType::NoResize);
    assert_eq!(style.paragraph_spacing, 0);
    assert_eq!(style.paragraph_indent, 0);
    assert_eq!(style.italic, false);
    assert_eq!(style.font_post_script_name, None);
    assert_eq!(style.font_family, "Inter");
    assert_eq!(style.font_weight, 400);
    assert_eq!(style.font_size, float(12.5));
    assert_eq!(style.letter_spacing, Number::PosInt(0));
    assert_eq!(style.line_height_px, float(14.0625));
    assert_eq!(style.line_height_percent, Number::PosInt(100));
    assert_eq!(style.text_align_horizontal, TextHorizontalAlignment::Left);
    assert_eq!(style.text_align_vertical, TextVerticalAlignment::Top);
    assert_eq!(style.line_height_unit, LineHeightUnit::Intrinsic);
}

#[test]
fn a_style_that_names_everything_keeps_everything() {
    let text = STYLE.replacen(
        "{",
        r#"{"fontPostScriptName":"Inter-Italic","paragraphSpacing":4,"paragraphIndent":-2,
        "italic":true,"textAutoResize":"WIDTH_AND_HEIGHT","textCase":"SMALL_CAPS_FORCED","#,
        1,
    );
    let style = TypeStyle::decode(&raw(&text), "style").unwrap();
    assert_eq!(style.font_post_script_name, Some("Inter-Italic".to_string()));
    assert_eq!(style.paragraph_spacing, 4);
    assert_eq!(style.paragraph_indent, -2);
    assert_eq!(style.italic, true);
    assert_eq!(style.text_auto_resize, TextAutoResizeType::WidthAndHeight);
    assert_eq!(style.text_case, TextCase::SmallCapsForced);
}

#[test]
fn a_token_outside_the_set_is_a_mismatch_not_a_default() {
    let text = STYLE.replacen("{", r#"{"textCase":"SHOUTING","#, 1);
    assert_eq!(
        TypeStyle::decode(&raw(&text), "style"),
        Err(mismatch("textCase", "TextCase", Raw::String("SHOUTING".to_string())))
    );
    let text = STYLE.replacen("{", r#"{"textCase":"original","#, 1);
    assert_eq!(
        TypeStyle::decode(&raw(&text), "style"),
        Err(mismatch("textCase", "TextCase", Raw::String("original".to_string())))
    );
    let text = STYLE.replace("\"LEFT\"", "\"MIDDLE\"");
    assert_eq!(
        TypeStyle::decode(&raw(&text), "style"),
        Err(mismatch("textAlignHorizontal", "TextHorizontalAlignment", Raw::String("MIDDLE".to_string())))
    );
    let text = STYLE.replacen("{", r#"{"textAutoResize":null,"#, 1);
    assert_eq!(
        TypeStyle::decode(&raw(&text), "style"),
        Err(mismatch("textAutoResize", "TextAutoResizeType", Raw::Null))
    );
}

#[test]
fn an_unknown_kind_of_node_is_an_unknown_variant() {
    assert_eq!(
        Node::decode(&raw(r#"{"type":"HEXAGON","id":"1","name":"h"}"#), "n"),
        Err(unknown("HEXAGON", "Node"))
    );
    assert_eq!(
        Node::decode(&raw(r#"{"type":"frame","id":"1","name":"h","children":[]}"#), "n"),
        Err(unknown("frame", "Node"))
    );
    let text = file_text(r#"{"type":"DOCUMENT","id":"0","name":"root","children":[
        {"type":"FRAME","id":"1","name":"A","children":[{"type":"WIDGET","id":"2","name":"w"}]}]}"#);
    assert_eq!(decode(&raw(&text)), Err(unknown("WIDGET", "Node")));
    match decode_str(&text) {
        Err(ReadError::Schema(e)) => assert_eq!(e, unknown("WIDGET", "Node")),
        other => panic!("unexpected outcome: {:?}", other),
    }
}

#[test]
fn the_discriminant_must_be_there_and_be_a_string() {
    assert_eq!(Node::decode(&raw(r#"{"id":"1","name":"h"}"#), "n"), Err(missing("type", "Node")));
    assert_eq!(
        Node::decode(&raw(r#"{"type":7,"id":"1","name":"h"}"#), "n"),
        Err(mismatch("type", "string", Raw::Number(Number::PosInt(7))))
    );
    assert_eq!(
        Node::decode(&raw(r#"[1]"#), "n"),
        Err(mismatch("n", "object", Raw::Array(vec![Raw::Number(Number::PosInt(1))])))
    );
}

#[test]
fn a_rectangle_without_corner_radius_has_none() {
    let n = Node::decode(&raw(r#"{"type":"RECTANGLE","id":"1","name":"r"}"#), "n").unwrap();
    match n {
        Node::Rectangle { corner_radius, rectangle_corner_radii, .. } => {
            assert_eq!(corner_radius, None);
            assert_eq!(rectangle_corner_radii, None);
        },
        other => panic!("unexpected node: {:?}", other),
    }
    let n = Node::decode(
        &raw(r#"{"type":"RECTANGLE","id":"1","name":"r","cornerRadius":0,"rectangleCornerRadii":[1,2,3,4]}"#),
        "n",
    ).unwrap();
    match n {
        Node::Rectangle { corner_radius, rectangle_corner_radii, .. } => {
            assert_eq!(corner_radius, Some(Number::PosInt(0)));
            assert_eq!(rectangle_corner_radii, Some([1, 2, 3, 4]));
        },
        other => panic!("unexpected node: {:?}", other),
    }
    assert_eq!(
        Node::decode(
            &raw(r#"{"type":"RECTANGLE","id":"1","name":"r","rectangleCornerRadii":[1,2,3]}"#),
            "n"
        ),
        Err(mismatch("rectangleCornerRadii", "array of 4 integers", raw("[1,2,3]")))
    );
}

#[test]
fn every_kind_of_node_decodes() {
    let containers = [
        ("DOCUMENT", NodeKind::Document),
        ("FRAME", NodeKind::Frame),
        ("GROUP", NodeKind::Group),
        ("BOOLEAN_OPERATION", NodeKind::BooleanOperation),
        ("COMPONENT", NodeKind::Component),
        ("COMPONENT_SET", NodeKind::ComponentSet),
        ("INSTANCE", NodeKind::Instance),
    ];
    for (tag, kind) in containers {
        let text = format!(
            r#"{{"type":"{}","id":"1","name":"n","children":[{{"type":"STAR","id":"2","name":"s"}}]}}"#,
            tag
        );
        let n = Node::decode(&raw(&text), "n").unwrap();
        assert_eq!(n.kind(), kind);
        assert_eq!(n.children().unwrap().len(), 1);
        let text = format!(r#"{{"type":"{}","id":"1","name":"n"}}"#, tag);
        assert_eq!(Node::decode(&raw(&text), "n"), Err(missing("children", "Node")));
    }
    let leaves = [
        ("VECTOR", NodeKind::Vector),
        ("STAR", NodeKind::Star),
        ("LINE", NodeKind::Line),
        ("ELLIPSE", NodeKind::Ellipse),
        ("REGULAR_POLYGON", NodeKind::RegularPolygon),
        ("RECTANGLE", NodeKind::Rectangle),
    ];
    for (tag, kind) in leaves {
        let text = format!(r#"{{"type":"{}","id":"1","name":"n","children":[7]}}"#, tag);
        let n = Node::decode(&raw(&text), "n").unwrap();
        assert_eq!(n.kind(), kind);
        assert!(n.children().is_none());
    }
    let text = format!(r#"{{"type":"TEXT","id":"1","name":"t","characters":"Hi","style":{}}}"#, STYLE);
    match Node::decode(&raw(&text), "n").unwrap() {
        Node::Text { characters, style, node } => {
            assert_eq!(characters, "Hi");
            assert_eq!(style.font_family, "Inter");
            assert_eq!(node.name, "t");
        },
        other => panic!("unexpected node: {:?}", other),
    }
    match Node::decode(&raw(r#"{"type":"SLICE","id":"1","name":"s","characters":"cut"}"#), "n").unwrap() {
        Node::Slice { characters, .. } => assert_eq!(characters, "cut"),
        other => panic!("unexpected node: {:?}", other),
    }
    assert_eq!(
        Node::decode(&raw(r#"{"type":"SLICE","id":"1","name":"s"}"#), "n"),
        Err(missing("characters", "Node"))
    );
    assert_eq!(
        Node::decode(&raw(r#"{"type":"TEXT","id":"1","name":"s","characters":"x"}"#), "n"),
        Err(missing("style", "Node"))
    );
}

#[test]
fn plugin_data_is_kept_as_it_stands() {
    let n = Node::decode(
        &raw(r#"{"type":"LINE","id":"1","name":"l","pluginData":{"tool":{"v":[1,2.5,"x",null]}}}"#),
        "n",
    ).unwrap();
    assert_eq!(n.base().plugin_data, Some(raw(r#"{"tool":{"v":[1,2.5,"x",null]}}"#)));
    let n = Node::decode(&raw(r#"{"type":"LINE","id":"1","name":"l","pluginData":null}"#), "n").unwrap();
    assert_eq!(n.base().plugin_data, None);
}

#[test]
fn the_common_fields_are_read_before_those_of_the_variant() {
    assert_eq!(
        Node::decode(&raw(r#"{"type":"TEXT","id":"1"}"#), "n"),
        Err(missing("name", "BaseNode"))
    );
    assert_eq!(
        Node::decode(&raw(r#"{"type":"TEXT","name":"x"}"#), "n"),
        Err(missing("id", "BaseNode"))
    );
    assert_eq!(
        Node::decode(&raw(r#"{"type":"TEXT","id":"1","name":7}"#), "n"),
        Err(mismatch("name", "string", Raw::Number(Number::PosInt(7))))
    );
    assert_eq!(
        Node::decode(&raw(r#"{"type":"TEXT","id":"1","name":"x","visible":"yes"}"#), "n"),
        Err(mismatch("visible", "boolean", Raw::String("yes".to_string())))
    );
}

#[test]
fn the_first_failure_among_children_is_reported() {
    let text = r#"{"type":"FRAME","id":"1","name":"f","children":[
        {"type":"STAR","id":"2","name":"ok"},
        {"type":"STAR","id":"3"},
        {"type":"NOPE","id":"4","name":"later"}]}"#;
    assert_eq!(Node::decode(&raw(text), "n"), Err(missing("name", "BaseNode")));
    let text = r#"{"type":"FRAME","id":"1","name":"f","children":[
        {"type":"FRAME","id":"2","name":"a","children":[{"type":"NOPE","id":"5","name":"deep"}]},
        {"type":"STAR","id":"3"}]}"#;
    assert_eq!(Node::decode(&raw(text), "n"), Err(unknown("NOPE", "Node")));
    let text = r#"{"type":"FRAME","id":"1","name":"f","children":{"a":1}}"#;
    assert_eq!(
        Node::decode(&raw(text), "n"),
        Err(mismatch("children", "array", raw(r#"{"a":1}"#)))
    );
    let text = r#"{"type":"FRAME","id":"1","name":"f","children":[3]}"#;
    assert_eq!(
        Node::decode(&raw(text), "n"),
        Err(mismatch("children", "object", Raw::Number(Number::PosInt(3))))
    );
}

#[test]
fn integers_must_fit_in_32_bits() {
    let v = |t: &str| Vector::decode(&raw(t), "v");
    assert_eq!(v(r#"{"x":2147483647,"y":-2147483648}"#), Ok(Vector { x: i32::MAX, y: i32::MIN }));
    assert_eq!(
        v(r#"{"x":2147483648,"y":0}"#),
        Err(mismatch("x", "32-bit integer", Raw::Number(Number::PosInt(2147483648))))
    );
    assert_eq!(
        v(r#"{"x":0,"y":-2147483649}"#),
        Err(mismatch("y", "32-bit integer", Raw::Number(Number::NegInt(-2147483649))))
    );
    assert_eq!(
        v(r#"{"x":1.5,"y":0}"#),
        Err(mismatch("x", "32-bit integer", Raw::Number(float(1.5))))
    );
    assert_eq!(
        v(r#"{"x":"1","y":0}"#),
        Err(mismatch("x", "32-bit integer", Raw::String("1".to_string())))
    );
    assert_eq!(v(r#"{"x":1}"#), Err(missing("y", "Vector")));
    assert_eq!(v(r#"{"x":1,"y":null}"#), Err(mismatch("y", "32-bit integer", Raw::Null)));
    assert_eq!(v("7"), Err(mismatch("v", "object", Raw::Number(Number::PosInt(7)))));
    let by_hand = Raw::Object(vec![
        ("x".to_string(), Raw::Number(Number::NegInt(5))),
        ("y".to_string(), Raw::Number(Number::PosInt(6))),
    ]);
    assert_eq!(Vector::decode(&by_hand, "v"), Ok(Vector { x: 5, y: 6 }));
}

#[test]
fn the_plain_records_decode() {
    assert_eq!(Size::decode(&raw(r#"{"width":3,"height":4}"#), "s"), Ok(Size { width: 3, height: 4 }));
    assert_eq!(
        Rectangle::decode(&raw(r#"{"x":1,"y":2,"width":3,"height":4,"extra":true}"#), "r"),
        Ok(Rectangle { x: 1, y: 2, width: 3, height: 4 })
    );
    assert_eq!(
        Color::decode(&raw(r#"{"r":0,"g":0.5,"b":1,"a":1.0}"#), "c"),
        Ok(Color { r: Number::PosInt(0), g: float(0.5), b: Number::PosInt(1), a: float(1.0) })
    );
    assert_eq!(
        Color::decode(&raw(r#"{"r":0,"g":"0.5","b":1,"a":1}"#), "c"),
        Err(mismatch("g", "number", Raw::String("0.5".to_string())))
    );
    assert_eq!(
        ColorStop::decode(&raw(r#"{"position":0.25,"color":{"r":1,"g":1,"b":1,"a":1}}"#), "c"),
        Ok(ColorStop {
            position: float(0.25),
            color: Color {
                r: Number::PosInt(1),
                g: Number::PosInt(1),
                b: Number::PosInt(1),
                a: Number::PosInt(1)
            }
        })
    );
    assert_eq!(
        ColorStop::decode(&raw(r#"{"position":0.25,"color":[]}"#), "c"),
        Err(mismatch("color", "object", Raw::Array(vec![])))
    );
    assert_eq!(
        Padding::decode(
            &raw(r#"{"paddingLeft":1,"paddingRight":2,"paddingTop":3,"paddingBottom":4}"#),
            "p"
        ),
        Ok(Padding { padding_left: 1, padding_right: 2, padding_top: 3, padding_bottom: 4 })
    );
    assert_eq!(
        LayoutConstraint::decode(&raw(r#"{"vertical":"TOP_BOTTOM","horizontal":"LEFT_RIGHT"}"#), "l"),
        Ok(LayoutConstraint {
            vertical: VerticalLayoutConstraint::TopBottom,
            horizontal: HorizontalLayoutConstraint::LeftRight
        })
    );
    assert_eq!(
        LayoutGrid::decode(
            &raw(r#"{"pattern":"ROWS","sectionSize":8,"visible":true,
                "color":{"r":1,"g":0,"b":0,"a":1},"alignment":"STRETCH",
                "gutterSize":2,"offset":1,"count":12}"#),
            "g"
        ),
        Ok(LayoutGrid {
            pattern: LayoutGridPattern::Rows,
            section_size: 8,
            visible: true,
            color: Color {
                r: Number::PosInt(1),
                g: Number::PosInt(0),
                b: Number::PosInt(0),
                a: Number::PosInt(1)
            },
            alignment: LayoutAlign::Stretch,
            gutter_size: 2,
            offset: 1,
            count: 12,
        })
    );
    assert_eq!(
        LayoutGrid::decode(&raw(r#"{"pattern":"ROWS","sectionSize":8}"#), "g"),
        Err(missing("visible", "LayoutGrid"))
    );
    assert_eq!(
        Style::decode(&raw(r#"{"key":"k","name":"n","description":""}"#), "s"),
        Ok(Style { key: "k".to_string(), name: "n".to_string(), description: String::new() })
    );
    assert_eq!(
        Component::decode(&raw(r#"{"key":"k","name":"n"}"#), "c"),
        Err(missing("description", "Component"))
    );
}

#[test]
fn constraints_are_told_apart_by_their_tag() {
    let c = |t: &str| Constraint::decode(&raw(t), "constraint");
    assert_eq!(c(r#"{"type":"SCALE","value":2}"#), Ok(Constraint::Scale { value: 2 }));
    assert_eq!(c(r#"{"type":"WIDTH","value":100}"#), Ok(Constraint::Width { value: 100 }));
    assert_eq!(c(r#"{"type":"HEIGHT","value":50}"#), Ok(Constraint::Height { value: 50 }));
    assert_eq!(c(r#"{"type":"DEPTH","value":50}"#), Err(unknown("DEPTH", "Constraint")));
    assert_eq!(c(r#"{"value":50}"#), Err(missing("type", "Constraint")));
    assert_eq!(c(r#"{"type":"SCALE"}"#), Err(missing("value", "Constraint")));
}

#[test]
fn paints_are_told_apart_by_their_tag() {
    let p = |t: &str| Paint::decode(&raw(t), "fill");
    let white =
        Color { r: Number::PosInt(1), g: Number::PosInt(1), b: Number::PosInt(1), a: Number::PosInt(1) };
    assert_eq!(
        p(r#"{"type":"SOLID","color":{"r":1,"g":1,"b":1,"a":1}}"#),
        Ok(Paint::Solid { visible: None, opacity: None, color: white })
    );
    assert_eq!(
        p(r#"{"type":"SOLID","visible":false,"opacity":0.5,"color":{"r":1,"g":1,"b":1,"a":1}}"#),
        Ok(Paint::Solid { visible: Some(false), opacity: Some(float(0.5)), color: white })
    );
    let gradient = r#"{"type":"GRADIENT_RADIAL","blendMode":"LINEAR_BURN",
        "gradientHandlePositions":[{"x":0,"y":1},{"x":2,"y":3}],
        "gradientStops":[{"position":0,"color":{"r":1,"g":1,"b":1,"a":1}}]}"#;
    assert_eq!(
        p(gradient),
        Ok(Paint::GradientRadial {
            visible: None,
            opacity: None,
            blend_mode: BlendMode::LinearBurn,
            gradient_handle_positions: vec![Vector { x: 0, y: 1 }, Vector { x: 2, y: 3 }],
            gradient_stops: vec![ColorStop { position: Number::PosInt(0), color: white }],
        })
    );
    for (tag, linear) in [("GRADIENT_LINEAR", 0), ("GRADIENT_ANGULAR", 1), ("GRADIENT_DIAMOND", 2)] {
        let paint = p(&gradient.replace("GRADIENT_RADIAL", tag)).unwrap();
        match (linear, paint) {
            (0, Paint::GradientLinear { .. }) => {},
            (1, Paint::GradientAngular { .. }) => {},
            (2, Paint::GradientDiamond { .. }) => {},
            (_, other) => panic!("unexpected paint: {:?}", other),
        }
    }
    assert_eq!(
        p(&gradient.replace(r#"{"x":2,"y":3}"#, r#"{"x":2}"#)),
        Err(missing("y", "Vector"))
    );
    assert_eq!(
        p(&gradient.replace(r#""position":0"#, r#""position":"0""#)),
        Err(mismatch("position", "number", Raw::String("0".to_string())))
    );
    assert_eq!(
        p(r#"{"type":"IMAGE","blendMode":"NORMAL","scaleMode":"TILE",
            "imageTransform":[[1,0,0],[0,1,5]],"scalingFactor":0.5,"imageRef":"abc"}"#),
        Ok(Paint::Image {
            visible: None,
            opacity: None,
            blend_mode: BlendMode::Normal,
            scale_mode: ScaleMode::Tile,
            image_transform: Some([[1, 0, 0], [0, 1, 5]]),
            scaling_factor: Some(float(0.5)),
            rotation: None,
            image_ref: Some("abc".to_string()),
            gif_ref: None,
        })
    );
    assert_eq!(
        p(r#"{"type":"IMAGE","blendMode":"NORMAL","scaleMode":"TILE","imageTransform":[[1,0,0]]}"#),
        Err(mismatch("imageTransform", "array of 2 rows", raw("[[1,0,0]]")))
    );
    assert_eq!(
        p(r#"{"type":"IMAGE","blendMode":"NORMAL","scaleMode":"TILE","imageTransform":[[1,0,0],[0,1]]}"#),
        Err(mismatch("imageTransform", "array of 3 integers", raw("[0,1]")))
    );
    assert_eq!(p(r#"{"type":"PATTERN"}"#), Err(unknown("PATTERN", "Paint")));
    assert_eq!(
        p(r#"{"type":"IMAGE","blendMode":"BLEND","scaleMode":"TILE"}"#),
        Err(mismatch("blendMode", "BlendMode", Raw::String("BLEND".to_string())))
    );
}

#[test]
fn the_fields_of_a_file_are_all_required() {
    let full = file_text(r#"{"type":"DOCUMENT","id":"0","name":"root","children":[]}"#);
    assert!(decode_str(&full).is_ok());
    for (key, shown) in [
        ("\"name\":\"Demo\",", "name"),
        ("\"role\":\"owner\",", "role"),
        ("\"lastModified\":\"2020-05-01T10:00:00Z\",", "lastModified"),
        ("\"version\":\"42\",", "version"),
        ("\"schemaVersion\":3,", "schemaVersion"),
    ] {
        let text = full.replacen(key, "", 1);
        assert_ne!(text, full);
        assert_eq!(decode(&raw(&text)), Err(missing(shown, "File")));
    }
    assert_eq!(decode(&raw("[]")), Err(mismatch("file", "object", Raw::Array(vec![]))));
    assert_eq!(
        decode(&raw(&full.replace("\"schemaVersion\":3", "\"schemaVersion\":\"3\""))),
        Err(mismatch("schemaVersion", "32-bit integer", Raw::String("3".to_string())))
    );
    let text = full.replace(r#""components":{"1:2":{"key":"k1","name":"Button","description":"A button"}}"#,
        r#""components":{"1:2":{"key":"k1","name":"Button","description":"A button"},"1:3":{"key":"k2"}}"#);
    assert_ne!(text, full);
    assert_eq!(decode(&raw(&text)), Err(missing("name", "Component")));
    let text = full.replace(r#""components":{"1:2":{"key":"k1","name":"Button","description":"A button"}}"#,
        r#""components":[]"#);
    assert_eq!(decode(&raw(&text)), Err(mismatch("components", "object", Raw::Array(vec![]))));
}

#[test]
fn text_that_is_not_json_is_a_syntax_error() {
    match decode_str("{\"name\": ") {
        Err(ReadError::Syntax(_)) => {},
        other => panic!("unexpected outcome: {:?}", other),
    }
    match decode_str("{\"name\": 1}") {
        Err(ReadError::Schema(e)) => {
            assert_eq!(e, mismatch("name", "string", Raw::Number(Number::PosInt(1))))
        },
        other => panic!("unexpected outcome: {:?}", other),
    }
}

#[test]
fn a_repeated_component_key_keeps_its_last_entry() {
    let component = |name: &str| Component {
        key: "k".to_string(),
        name: name.to_string(),
        description: String::new(),
    };
    let mut file = decode_str(&file_text(r#"{"type":"DOCUMENT","id":"0","name":"root","children":[]}"#))
        .unwrap();
    file.components = vec![
        ("a".to_string(), component("first")),
        ("b".to_string(), component("other")),
        ("a".to_string(), component("second")),
    ];
    assert_eq!(file.component("a").unwrap().name, "second");
    assert_eq!(file.component("b").unwrap().name, "other");
    assert!(file.component("c").is_none());
    assert!(file.component("").is_none());
}

#[test]
fn the_defaults_are_what_the_schema_says() {
    assert_eq!(TextCase::default(), TextCase::Original);
    assert_eq!(TextAutoResizeType::default(), TextAutoResizeType::NoResize);
}
