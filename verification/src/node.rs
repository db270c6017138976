//! Decoding the node tree.
//!
//! A node is one object: its discriminant `type`, the fields common to all
//! nodes, and the fields of its variant all stand at the same level. They
//! are read in that order, the children of a container before the other
//! fields of its variant, and the first failure ends the decoding.

use vstd::prelude::*;
use crate::error::{plain_of, type_mismatch, unknown_variant, view_of, DecodeError, DecodeErrorView, Decoded};
use crate::field::{
    each, expect_object, flag_field_or, int_of, items_field, lemma_each_keeps_first_error,
    lemma_items_field_decreases, list_field, optional_number, optional_text, present,
    read_flag_field_or, read_int, read_items_field, read_optional_number, read_optional_text,
    read_present, read_required, read_text_field, required, text_field,
};
use crate::file::{
    export_settings_view, nodes_view, BaseNode, BaseNodeView, Color, ExportSetting,
    ExportSettingView, Node, NodeDetailView, NodeKind, NodeView, TypeStyle,
};
use crate::raw::{items_view, lemma_array_view, Json, Raw};
use crate::shape::{color_of, export_setting_of};
use crate::style::type_style_of;
use crate::token::{read_tag, tag_of, Token};

verus! {

/// The fields common to all nodes: the strings `id` and `name` are
/// required, `visible` is false where it is absent, and `pluginData` is
/// kept as it stands, whatever it holds.
pub open spec fn base_node_of(raw: Json, field: Seq<char>) -> Decoded<BaseNodeView> {
    let id = text_field(raw, "id"@, "BaseNode"@);
    let name = text_field(raw, "name"@, "BaseNode"@);
    let visible = flag_field_or(raw, "visible"@, false);
    if !(raw is Object) {
        Err(type_mismatch(field, "object"@, raw))
    } else if id is Err {
        Err(id->Err_0)
    } else if name is Err {
        Err(name->Err_0)
    } else if visible is Err {
        Err(visible->Err_0)
    } else {
        Ok(
            BaseNodeView {
                id: id->Ok_0,
                name: name->Ok_0,
                visible: visible->Ok_0,
                plugin_data: present(raw, "pluginData"@),
            },
        )
    }
}

impl BaseNode {
    /// Decodes the common fields of the object standing at `field`.
    pub fn decode(raw: &Raw, field: &str) -> (r: Result<BaseNode, DecodeError>)
        ensures
            view_of(r) == base_node_of(raw@, field@),
    {
        expect_object(raw, field)?;
        let id = read_text_field(raw, "id", "BaseNode")?;
        let name = read_text_field(raw, "name", "BaseNode")?;
        let visible = read_flag_field_or(raw, "visible", false)?;
        let plugin_data = match read_present(raw, "pluginData") {
            Some(data) => Some(data.duplicate()),
            None => None,
        };
        Ok(BaseNode { id, name, visible, plugin_data })
    }
}

/// How one export setting of the list at `field` is decoded.
pub open spec fn export_setting_at(field: Seq<char>) -> spec_fn(Json) -> Decoded<ExportSettingView> {
    |v: Json| export_setting_of(v, field)
}

/// Decodes a list of export settings, the items of the array at `field`.
pub fn decode_export_settings(items: &Vec<Raw>, field: &str) -> (r: Result<
    Vec<ExportSetting>,
    DecodeError,
>)
    ensures
        match r {
            Ok(out) => each(items_view(items@), export_setting_at(field@)) == Ok::<
                _,
                DecodeErrorView,
            >(export_settings_view(out@)),
            Err(e) => each(items_view(items@), export_setting_at(field@)) == Err::<
                Seq<ExportSettingView>,
                _,
            >(e@),
        },
{
    let ghost all = items_view(items@);
    let ghost f = export_setting_at(field@);
    let mut out: Vec<ExportSetting> = Vec::new();
    let mut i: usize = 0;
    proof {
        assert(all.take(0) =~= Seq::<Json>::empty());
        assert(export_settings_view(out@) =~= Seq::<ExportSettingView>::empty());
    }
    while i < items.len()
        invariant
            i <= items.len(),
            all == items_view(items@),
            f == export_setting_at(field@),
            each(all.take(i as int), f) == Ok::<_, DecodeErrorView>(export_settings_view(out@)),
        decreases items.len() - i,
    {
        proof {
            assert(all.take(i + 1).drop_last() =~= all.take(i as int));
            assert(all.take(i + 1).last() == items@[i as int]@);
        }
        match ExportSetting::decode(&items[i], field) {
            Ok(v) => {
                proof {
                    assert(export_settings_view(out@.push(v)) =~= export_settings_view(out@).push(v@));
                }
                out.push(v);
            },
            Err(e) => {
                proof {
                    lemma_each_keeps_first_error(all, f, i + 1);
                }
                return Err(e);
            },
        }
        i += 1;
    }
    assert(all.take(i as int) =~= all);
    Ok(out)
}

/// The radii of the four corners: an array of exactly four integers.
pub open spec fn radii_of(v: Json, field: Seq<char>) -> Decoded<[i32; 4]> {
    match v {
        Json::Array(items) if items.len() == 4 => {
            let a = int_of(items[0], field);
            let b = int_of(items[1], field);
            let c = int_of(items[2], field);
            let d = int_of(items[3], field);
            if a is Err {
                Err(a->Err_0)
            } else if b is Err {
                Err(b->Err_0)
            } else if c is Err {
                Err(c->Err_0)
            } else if d is Err {
                Err(d->Err_0)
            } else {
                Ok([a->Ok_0, b->Ok_0, c->Ok_0, d->Ok_0])
            }
        },
        _ => Err(type_mismatch(field, "array of 4 integers"@, v)),
    }
}

/// The corner radii at the optional field `key`.
pub open spec fn optional_radii(obj: Json, key: Seq<char>) -> Decoded<Option<[i32; 4]>> {
    match present(obj, key) {
        Some(v) => match radii_of(v, key) {
            Ok(radii) => Ok(Some(radii)),
            Err(e) => Err(e),
        },
        None => Ok(None),
    }
}

/// Reads the radii of the four corners.
pub fn read_radii(v: &Raw, field: &str) -> (r: Result<[i32; 4], DecodeError>)
    ensures
        plain_of(r) == radii_of(v@, field@),
{
    match v {
        Raw::Array(items) => {
            proof {
                lemma_array_view(*items);
            }
            if items.len() == 4 {
                let a = read_int(&items[0], field)?;
                let b = read_int(&items[1], field)?;
                let c = read_int(&items[2], field)?;
                let d = read_int(&items[3], field)?;
                Ok([a, b, c, d])
            } else {
                Err(DecodeError::mismatch(field, "array of 4 integers", v))
            }
        },
        _ => Err(DecodeError::mismatch(field, "array of 4 integers", v)),
    }
}

/// Reads the corner radii at the optional field `key`.
pub fn read_optional_radii(obj: &Raw, key: &str) -> (r: Result<Option<[i32; 4]>, DecodeError>)
    ensures
        plain_of(r) == optional_radii(obj@, key@),
{
    match read_present(obj, key) {
        Some(v) => Ok(Some(read_radii(v, key)?)),
        None => Ok(None),
    }
}

/// What a canvas holds of its own: the required background colour, the
/// optional id of the node a prototype starts at, and the required list of
/// export settings.
pub open spec fn canvas_of(raw: Json) -> Decoded<NodeDetailView> {
    let background_color = match required(raw, "backgroundColor"@, "Node"@) {
        Ok(v) => color_of(v, "backgroundColor"@),
        Err(e) => Err(e),
    };
    let prototype_start_node_id = optional_text(raw, "prototypeStartNodeId"@);
    let export_settings = list_field(
        raw,
        "exportSettings"@,
        "Node"@,
        export_setting_at("exportSettings"@),
    );
    if background_color is Err {
        Err(background_color->Err_0)
    } else if prototype_start_node_id is Err {
        Err(prototype_start_node_id->Err_0)
    } else if export_settings is Err {
        Err(export_settings->Err_0)
    } else {
        Ok(
            NodeDetailView::Canvas {
                background_color: background_color->Ok_0,
                prototype_start_node_id: prototype_start_node_id->Ok_0,
                export_settings: export_settings->Ok_0,
            },
        )
    }
}

/// What a rectangle holds of its own: two optional fields, the corner
/// radius and the radii of the four corners. An absent one stays absent.
pub open spec fn rectangle_of(raw: Json) -> Decoded<NodeDetailView> {
    let corner_radius = optional_number(raw, "cornerRadius"@);
    let rectangle_corner_radii = optional_radii(raw, "rectangleCornerRadii"@);
    if corner_radius is Err {
        Err(corner_radius->Err_0)
    } else if rectangle_corner_radii is Err {
        Err(rectangle_corner_radii->Err_0)
    } else {
        Ok(
            NodeDetailView::Rectangle {
                corner_radius: corner_radius->Ok_0,
                rectangle_corner_radii: rectangle_corner_radii->Ok_0,
            },
        )
    }
}

/// What a text holds of its own: its characters and its style, both required.
pub open spec fn text_node_of(raw: Json) -> Decoded<NodeDetailView> {
    let characters = text_field(raw, "characters"@, "Node"@);
    let style = match required(raw, "style"@, "Node"@) {
        Ok(v) => type_style_of(v, "style"@),
        Err(e) => Err(e),
    };
    if characters is Err {
        Err(characters->Err_0)
    } else if style is Err {
        Err(style->Err_0)
    } else {
        Ok(NodeDetailView::Text { characters: characters->Ok_0, style: style->Ok_0 })
    }
}

/// What a slice holds of its own: its characters, required.
pub open spec fn slice_of(raw: Json) -> Decoded<NodeDetailView> {
    match text_field(raw, "characters"@, "Node"@) {
        Ok(characters) => Ok(NodeDetailView::Slice { characters }),
        Err(e) => Err(e),
    }
}

/// The fields that a node of kind `kind` holds beyond the common ones and
/// its children.
pub open spec fn detail_of(kind: NodeKind, raw: Json) -> Decoded<NodeDetailView> {
    match kind {
        NodeKind::Canvas => canvas_of(raw),
        NodeKind::Rectangle => rectangle_of(raw),
        NodeKind::Text => text_node_of(raw),
        NodeKind::Slice => slice_of(raw),
        _ => Ok(NodeDetailView::Plain),
    }
}

/// The node that the object standing at `field` describes.
pub open spec fn node_of(raw: Json, field: Seq<char>) -> Decoded<NodeView>
    decreases raw,
{
    let kind = tag_of::<NodeKind>(raw);
    let node = base_node_of(raw, field);
    if !(raw is Object) {
        Err(type_mismatch(field, "object"@, raw))
    } else if kind is Err {
        Err(kind->Err_0)
    } else if node is Err {
        Err(node->Err_0)
    } else {
        let children = if kind->Ok_0.is_container() {
            match items_field(raw, "children"@, "Node"@) {
                Ok(items) => {
                    proof {
                        lemma_items_field_decreases(raw, "children"@, "Node"@);
                    }
                    nodes_of(items, "children"@)
                },
                Err(e) => Err(e),
            }
        } else {
            Ok(Seq::empty())
        };
        let detail = detail_of(kind->Ok_0, raw);
        if children is Err {
            Err(children->Err_0)
        } else if detail is Err {
            Err(detail->Err_0)
        } else {
            Ok(
                NodeView {
                    kind: kind->Ok_0,
                    node: node->Ok_0,
                    children: children->Ok_0,
                    detail: detail->Ok_0,
                },
            )
        }
    }
}

/// The nodes that `items` describe, in order: the decoded nodes, or the
/// error of the first item that fails.
pub open spec fn nodes_of(items: Seq<Json>, field: Seq<char>) -> Decoded<Seq<NodeView>>
    decreases items,
{
    if items.len() == 0 {
        Ok(Seq::empty())
    } else {
        match nodes_of(items.drop_last(), field) {
            Ok(done) => match node_of(items.last(), field) {
                Ok(n) => Ok(done.push(n)),
                Err(e) => Err(e),
            },
            Err(e) => Err(e),
        }
    }
}

/// The children of a container: the nodes that the array at the required
/// field `children` describes.
pub open spec fn children_of(raw: Json) -> Decoded<Seq<NodeView>> {
    match items_field(raw, "children"@, "Node"@) {
        Ok(items) => nodes_of(items, "children"@),
        Err(e) => Err(e),
    }
}

/// Once a prefix of a list of nodes has failed, the list fails with the
/// same error.
pub proof fn lemma_nodes_keep_first_error(items: Seq<Json>, field: Seq<char>, n: int)
    requires
        0 <= n <= items.len(),
        nodes_of(items.take(n), field) is Err,
    ensures
        nodes_of(items, field) == nodes_of(items.take(n), field),
    decreases items.len(),
{
    if n == items.len() {
        assert(items.take(n) =~= items);
    } else {
        assert(items.drop_last().take(n) =~= items.take(n));
        lemma_nodes_keep_first_error(items.drop_last(), field, n);
    }
}

/// A list of nodes decodes item by item: where it decodes at all, there are
/// as many nodes as items, and each node is what its item decodes to, at
/// the place of its item.
pub proof fn lemma_nodes_keep_their_order(items: Seq<Json>, field: Seq<char>)
    ensures
        nodes_of(items, field) matches Ok(nodes) ==> {
            &&& nodes.len() == items.len()
            &&& forall|i: int|
                0 <= i < items.len() ==> node_of(#[trigger] items[i], field) == Ok::<
                    _,
                    DecodeErrorView,
                >(nodes[i])
        },
    decreases items.len(),
{
    if items.len() > 0 {
        lemma_nodes_keep_their_order(items.drop_last(), field);
        if nodes_of(items, field) is Ok {
            let nodes = nodes_of(items, field)->Ok_0;
            let done = nodes_of(items.drop_last(), field)->Ok_0;
            assert forall|i: int| 0 <= i < items.len() implies node_of(
                #[trigger] items[i],
                field,
            ) == Ok::<_, DecodeErrorView>(nodes[i]) by {
                if i < items.len() - 1 {
                    assert(items.drop_last()[i] == items[i]);
                    assert(done[i] == nodes[i]);
                } else {
                    assert(items.last() == items[i]);
                }
            }
        }
    }
}

/// Decodes the children of a container.
fn decode_children(raw: &Raw) -> (r: Result<Vec<Node>, DecodeError>)
    ensures
        match r {
            Ok(out) => children_of(raw@) == Ok::<_, DecodeErrorView>(nodes_view(out)),
            Err(e) => children_of(raw@) == Err::<Seq<NodeView>, _>(e@),
        },
    decreases raw@, 0nat,
{
    let items = read_items_field(raw, "children", "Node")?;
    let ghost all = items_view(items@);
    let mut out: Vec<Node> = Vec::new();
    let mut i: usize = 0;
    proof {
        lemma_items_field_decreases(raw@, "children"@, "Node"@);
        assert(all.take(0) =~= Seq::<Json>::empty());
        assert(nodes_view(out) =~= Seq::<NodeView>::empty());
    }
    while i < items.len()
        invariant
            i <= items.len(),
            all == items_view(items@),
            items_field(raw@, "children"@, "Node"@) == Ok::<_, DecodeErrorView>(all),
            decreases_to!(raw@ => all),
            nodes_of(all.take(i as int), "children"@) == Ok::<_, DecodeErrorView>(nodes_view(out)),
        decreases items.len() - i,
    {
        proof {
            assert(all.take(i + 1).drop_last() =~= all.take(i as int));
            assert(all.take(i + 1).last() == items@[i as int]@);
            assert(decreases_to!(all => all[i as int]));
        }
        match Node::decode(&items[i], "children") {
            Ok(n) => {
                let ghost before = nodes_view(out);
                out.push(n);
                proof {
                    assert(nodes_view(out) =~= before.push(n@));
                }
            },
            Err(e) => {
                proof {
                    lemma_nodes_keep_first_error(all, "children"@, i + 1);
                }
                return Err(e);
            },
        }
        i += 1;
    }
    assert(all.take(i as int) =~= all);
    Ok(out)
}

impl Node {
    /// Decodes the object standing at `field`, and under it the whole tree.
    pub fn decode(raw: &Raw, field: &str) -> (r: Result<Node, DecodeError>)
        ensures
            view_of(r) == node_of(raw@, field@),
        decreases raw@, 1nat,
    {
        expect_object(raw, field)?;
        let kind = read_tag::<NodeKind>(raw)?;
        let node = BaseNode::decode(raw, field)?;
        match kind {
            NodeKind::Document => {
                let children = decode_children(raw)?;
                Ok(Node::Document { children, node })
            },
            NodeKind::Canvas => {
                let children = decode_children(raw)?;
                let background_color = Color::decode(
                    read_required(raw, "backgroundColor", "Node")?,
                    "backgroundColor",
                )?;
                let prototype_start_node_id = read_optional_text(raw, "prototypeStartNodeId")?;
                let export_settings = decode_export_settings(
                    read_items_field(raw, "exportSettings", "Node")?,
                    "exportSettings",
                )?;
                Ok(
                    Node::Canvas {
                        children,
                        background_color,
                        prototype_start_node_id,
                        export_settings,
                        node,
                    },
                )
            },
            NodeKind::Frame => {
                let children = decode_children(raw)?;
                Ok(Node::Frame { children, node })
            },
            NodeKind::Group => {
                let children = decode_children(raw)?;
                Ok(Node::Group { children, node })
            },
            NodeKind::Vector => Ok(Node::Vector { node }),
            NodeKind::BooleanOperation => {
                let children = decode_children(raw)?;
                Ok(Node::BooleanOperation { children, node })
            },
            NodeKind::Star => Ok(Node::Star { node }),
            NodeKind::Line => Ok(Node::Line { node }),
            NodeKind::Ellipse => Ok(Node::Ellipse { node }),
            NodeKind::RegularPolygon => Ok(Node::RegularPolygon { node }),
            NodeKind::Rectangle => {
                let corner_radius = read_optional_number(raw, "cornerRadius")?;
                let rectangle_corner_radii = read_optional_radii(raw, "rectangleCornerRadii")?;
                Ok(Node::Rectangle { corner_radius, rectangle_corner_radii, node })
            },
            NodeKind::Text => {
                let characters = read_text_field(raw, "characters", "Node")?;
                let style = TypeStyle::decode(read_required(raw, "style", "Node")?, "style")?;
                Ok(Node::Text { characters, style, node })
            },
            NodeKind::Slice => {
                let characters = read_text_field(raw, "characters", "Node")?;
                Ok(Node::Slice { characters, node })
            },
            NodeKind::Component => {
                let children = decode_children(raw)?;
                Ok(Node::Component { children, node })
            },
            NodeKind::ComponentSet => {
                let children = decode_children(raw)?;
                Ok(Node::ComponentSet { children, node })
            },
            NodeKind::Instance => {
                let children = decode_children(raw)?;
                Ok(Node::Instance { children, node })
            },
        }
    }
}

/// Whatever decodes as a node is well formed: a leaf has no children, and
/// a node holds the detail of its kind.
pub proof fn lemma_decoded_node_is_well_formed(raw: Json, field: Seq<char>)
    ensures
        node_of(raw, field) matches Ok(n) ==> n.well_formed(),
    decreases raw, 1nat,
{
    if node_of(raw, field) is Ok {
        let n = node_of(raw, field)->Ok_0;
        if n.kind.is_container() {
            let items = items_field(raw, "children"@, "Node"@)->Ok_0;
            lemma_items_field_decreases(raw, "children"@, "Node"@);
            lemma_decoded_nodes_are_well_formed(items, "children"@);
        }
    }
}

/// The same for a list of nodes.
pub proof fn lemma_decoded_nodes_are_well_formed(items: Seq<Json>, field: Seq<char>)
    ensures
        nodes_of(items, field) matches Ok(nodes) ==> forall|i: int|
            0 <= i < nodes.len() ==> (#[trigger] nodes[i]).well_formed(),
    decreases items, 0nat,
{
    if items.len() > 0 && nodes_of(items, field) is Ok {
        lemma_decoded_nodes_are_well_formed(items.drop_last(), field);
        lemma_decoded_node_is_well_formed(items.last(), field);
    }
}

/// A node that lacks `visible` decodes, if at all, as not visible.
pub proof fn lemma_visible_defaults_to_false(raw: Json, field: Seq<char>)
    requires
        raw.field("visible"@) is None,
    ensures
        base_node_of(raw, field) matches Ok(node) ==> !node.visible,
        node_of(raw, field) matches Ok(n) ==> !n.node.visible,
{
}

/// A rectangle that lacks `cornerRadius` decodes, if at all, without one.
pub proof fn lemma_absent_corner_radius_stays_absent(raw: Json, field: Seq<char>)
    requires
        raw.field("cornerRadius"@) is None,
        tag_of::<NodeKind>(raw) == Ok::<_, DecodeErrorView>(NodeKind::Rectangle),
    ensures
        node_of(raw, field) matches Ok(n) ==> n.detail matches NodeDetailView::Rectangle {
            corner_radius,
            ..
        } && corner_radius is None,
{
}

/// An object whose discriminant names none of the sixteen kinds is refused
/// as an unknown variant, whatever else it holds.
pub proof fn lemma_unknown_node_kind_is_refused(raw: Json, field: Seq<char>, tag: Seq<char>)
    requires
        raw.field("type"@) == Some(Json::String(tag)),
        NodeKind::named(tag) is None,
    ensures
        node_of(raw, field) == Err::<NodeView, _>(unknown_variant(tag, "Node"@)),
{
}

} // verus!
